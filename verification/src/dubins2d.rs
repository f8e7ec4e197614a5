//! Planar maneuvers: the six path families, the ranking of candidates by
//! length, and the choice of one of them.
//!
//! The trigonometry that produces the turn angles of a family is the caller's.
//! It arrives here as a [`PlanarEvaluation`]; this module decides which
//! families are feasible, whether the two poses coincide, and which candidate
//! is chosen.

use vstd::prelude::*;
use crate::scalar::{Number, Scalar, number_abs, number_le, number_lt, NEG_INFINITY_BITS};

verus! {

/// The kind of one segment of a path. `NONE` stands for "no segment".
#[derive(Copy, Clone, PartialEq, Eq, Structural)]
pub enum SegmentType {
    RIGHT,
    STRAIGHT,
    LEFT,
    NONE,
}

impl SegmentType {
    /// The one-letter name of a segment kind.
    pub open spec fn letter(self) -> char {
        match self {
            SegmentType::RIGHT => 'R',
            SegmentType::STRAIGHT => 'S',
            SegmentType::LEFT => 'L',
            SegmentType::NONE => 'X',
        }
    }

    /// The one-letter name of a segment kind, as text.
    pub fn label(&self) -> (r: &'static str)
        ensures
            r@ == seq![self.letter()],
    {
        proof {
            reveal_strlit("R");
            reveal_strlit("S");
            reveal_strlit("L");
            reveal_strlit("X");
        }
        match self {
            SegmentType::RIGHT => "R",
            SegmentType::STRAIGHT => "S",
            SegmentType::LEFT => "L",
            SegmentType::NONE => "X",
        }
    }
}

/// The kinds of the three segments of a path, in order of travel.
#[derive(Copy, Clone, PartialEq, Eq, Structural)]
pub struct ManeuverCase {
    pub a: SegmentType,
    pub b: SegmentType,
    pub c: SegmentType,
}

impl ManeuverCase {
    /// The case with the given three segments.
    pub open spec fn spec_of(a: SegmentType, b: SegmentType, c: SegmentType) -> ManeuverCase {
        ManeuverCase { a, b, c }
    }

    /// The case with the given three segments.
    #[verifier::when_used_as_spec(spec_of)]
    pub fn of(a: SegmentType, b: SegmentType, c: SegmentType) -> (r: ManeuverCase)
        ensures
            r == ManeuverCase::spec_of(a, b, c),
    {
        ManeuverCase { a, b, c }
    }

    /// Left turn, straight, left turn.
    pub open spec fn lsl() -> ManeuverCase {
        ManeuverCase::spec_of(SegmentType::LEFT, SegmentType::STRAIGHT, SegmentType::LEFT)
    }

    /// Right turn, straight, right turn.
    pub open spec fn rsr() -> ManeuverCase {
        ManeuverCase::spec_of(SegmentType::RIGHT, SegmentType::STRAIGHT, SegmentType::RIGHT)
    }

    /// Left turn, straight, right turn.
    pub open spec fn lsr() -> ManeuverCase {
        ManeuverCase::spec_of(SegmentType::LEFT, SegmentType::STRAIGHT, SegmentType::RIGHT)
    }

    /// Right turn, straight, left turn.
    pub open spec fn rsl() -> ManeuverCase {
        ManeuverCase::spec_of(SegmentType::RIGHT, SegmentType::STRAIGHT, SegmentType::LEFT)
    }

    /// Right turn, left turn, right turn.
    pub open spec fn rlr() -> ManeuverCase {
        ManeuverCase::spec_of(SegmentType::RIGHT, SegmentType::LEFT, SegmentType::RIGHT)
    }

    /// Left turn, right turn, left turn.
    pub open spec fn lrl() -> ManeuverCase {
        ManeuverCase::spec_of(SegmentType::LEFT, SegmentType::RIGHT, SegmentType::LEFT)
    }

    /// One full right-hand circle.
    pub open spec fn circle() -> ManeuverCase {
        ManeuverCase::spec_of(SegmentType::RIGHT, SegmentType::RIGHT, SegmentType::RIGHT)
    }

    /// No path.
    pub open spec fn none() -> ManeuverCase {
        ManeuverCase::spec_of(SegmentType::NONE, SegmentType::NONE, SegmentType::NONE)
    }

    /// The three letters of the case, in order of travel.
    pub open spec fn letters(self) -> Seq<char> {
        seq![self.a.letter(), self.b.letter(), self.c.letter()]
    }
}

/// The numbers of one path: the three segment parameters in units of the
/// radius, and the length of the path.
#[derive(Copy, Clone)]
pub struct Arcs {
    pub t: Scalar,
    pub p: Scalar,
    pub q: Scalar,
    pub length: Scalar,
}

/// One candidate path: its numbers and its case.
#[derive(Copy, Clone)]
pub struct DubinsStruct {
    pub t: Scalar,
    pub p: Scalar,
    pub q: Scalar,
    pub length: Scalar,
    pub case: ManeuverCase,
}

impl DubinsStruct {
    /// The candidate with the given numbers and case.
    pub open spec fn spec_of(arcs: Arcs, case: ManeuverCase) -> DubinsStruct {
        DubinsStruct { t: arcs.t, p: arcs.p, q: arcs.q, length: arcs.length, case }
    }

    /// The candidate with the given numbers and case.
    #[verifier::when_used_as_spec(spec_of)]
    pub fn of(arcs: Arcs, case: ManeuverCase) -> (r: DubinsStruct)
        ensures
            r == DubinsStruct::spec_of(arcs, case),
    {
        DubinsStruct { t: arcs.t, p: arcs.p, q: arcs.q, length: arcs.length, case }
    }

    /// A family that has no path between the two poses: every number is
    /// positive infinity.
    pub open spec fn spec_infeasible(case: ManeuverCase) -> DubinsStruct {
        DubinsStruct {
            t: Scalar::spec_infinity(),
            p: Scalar::spec_infinity(),
            q: Scalar::spec_infinity(),
            length: Scalar::spec_infinity(),
            case,
        }
    }

    /// A family that has no path between the two poses.
    #[verifier::when_used_as_spec(spec_infeasible)]
    pub fn infeasible(case: ManeuverCase) -> (r: DubinsStruct)
        ensures
            r == DubinsStruct::spec_infeasible(case),
    {
        DubinsStruct {
            t: Scalar::infinity(),
            p: Scalar::infinity(),
            q: Scalar::infinity(),
            length: Scalar::infinity(),
            case,
        }
    }

    /// No path chosen: no segments, infinite length.
    pub open spec fn spec_unset() -> DubinsStruct {
        DubinsStruct {
            t: Scalar::spec_zero(),
            p: Scalar::spec_zero(),
            q: Scalar::spec_zero(),
            length: Scalar::spec_infinity(),
            case: ManeuverCase::none(),
        }
    }

    /// No path chosen: no segments, infinite length.
    #[verifier::when_used_as_spec(spec_unset)]
    pub fn unset() -> (r: DubinsStruct)
        ensures
            r == DubinsStruct::spec_unset(),
    {
        DubinsStruct {
            t: Scalar::zero(),
            p: Scalar::zero(),
            q: Scalar::zero(),
            length: Scalar::infinity(),
            case: ManeuverCase::of(SegmentType::NONE, SegmentType::NONE, SegmentType::NONE),
        }
    }

    /// The candidate of a family that is feasible exactly when `feasible`
    /// holds.
    pub open spec fn gated(feasible: bool, arcs: Arcs, case: ManeuverCase) -> DubinsStruct {
        if feasible {
            DubinsStruct::spec_of(arcs, case)
        } else {
            DubinsStruct::spec_infeasible(case)
        }
    }
}

/// A length that ranks behind every number: a NaN or positive infinity.
pub open spec fn unranked(length: Number) -> bool {
    length is NaN || length is PosInfinity
}

/// Whether the first length ranks strictly before the second. Numbers rank by
/// value; NaN and positive infinity rank behind all of them and equal to each
/// other.
pub open spec fn ranks_before(first: Number, second: Number) -> bool {
    !unranked(first) && (unranked(second) || number_lt(first, second))
}

/// Whether a length ranks strictly before another.
pub fn shorter(first: Scalar, second: Scalar) -> (r: bool)
    ensures
        r == ranks_before(first@, second@),
{
    let first_unranked = first.is_nan() || first.to_bits() == Scalar::infinity().to_bits();
    let second_unranked = second.is_nan() || second.to_bits() == Scalar::infinity().to_bits();
    !first_unranked && (second_unranked || first.lt(second))
}

/// Whether candidate `j` is marked eligible. A candidate without a mark is
/// not.
pub open spec fn marked(eligible: Seq<bool>, j: int) -> bool {
    0 <= j < eligible.len() && eligible[j]
}

/// Whether candidate `i` is the one that an ascending, stable sort of the
/// eligible ones among the first `count` candidates puts first: it is
/// eligible, every eligible candidate before it ranks strictly behind it, and
/// no eligible candidate after it ranks strictly before it.
pub open spec fn leads(
    candidates: Seq<DubinsStruct>,
    eligible: Seq<bool>,
    count: int,
    i: int,
) -> bool {
    &&& 0 <= i < count
    &&& marked(eligible, i)
    &&& forall|j: int|
        0 <= j < count && #[trigger] marked(eligible, j) ==> if j < i {
            ranks_before(candidates[i].length@, candidates[j].length@)
        } else {
            !ranks_before(candidates[j].length@, candidates[i].length@)
        }
}

/// Whether candidate `i` is the one that an ascending, stable sort of the
/// eligible candidates puts first.
pub open spec fn is_choice(candidates: Seq<DubinsStruct>, eligible: Seq<bool>, i: int) -> bool {
    leads(candidates, eligible, candidates.len() as int, i)
}

/// Whether `chosen` is what the choice among the candidates gives: the
/// candidate that [`is_choice`] singles out, or the unset path when no
/// candidate is eligible.
pub open spec fn is_selection(
    candidates: Seq<DubinsStruct>,
    eligible: Seq<bool>,
    chosen: DubinsStruct,
) -> bool {
    if exists|j: int| 0 <= j < candidates.len() && #[trigger] marked(eligible, j) {
        exists|i: int| #[trigger] is_choice(candidates, eligible, i) && chosen == candidates[i]
    } else {
        chosen == DubinsStruct::spec_unset()
    }
}

/// The index of the choice among the candidates, where a candidate is
/// eligible.
pub open spec fn choice(candidates: Seq<DubinsStruct>, eligible: Seq<bool>) -> Option<int> {
    if exists|j: int| 0 <= j < candidates.len() && #[trigger] marked(eligible, j) {
        Some(choose|i: int| #[trigger] is_choice(candidates, eligible, i))
    } else {
        None
    }
}

/// The path that the choice among the candidates gives: the chosen
/// candidate, or the unset path when no candidate is eligible.
pub open spec fn selection(candidates: Seq<DubinsStruct>, eligible: Seq<bool>) -> DubinsStruct {
    match choice(candidates, eligible) {
        Some(i) => candidates[i],
        None => DubinsStruct::spec_unset(),
    }
}

/// The ranking is a strict weak order: nothing ranks before itself, ranking
/// before is transitive, and so is ranking equal.
pub proof fn lemma_ranking_is_a_strict_weak_order(a: Number, b: Number, c: Number)
    ensures
        !ranks_before(a, a),
        ranks_before(a, b) ==> !ranks_before(b, a),
        ranks_before(a, b) && ranks_before(b, c) ==> ranks_before(a, c),
        !ranks_before(a, b) && !ranks_before(b, c) ==> !ranks_before(a, c),
{
}

/// Where one of the first `count` candidates is eligible, one of them leads.
pub proof fn lemma_leader_exists(candidates: Seq<DubinsStruct>, eligible: Seq<bool>, count: int)
    requires
        exists|j: int| 0 <= j < count && #[trigger] marked(eligible, j),
    ensures
        exists|i: int| #[trigger] leads(candidates, eligible, count, i),
    decreases count,
{
    let last = count - 1;
    if exists|j: int| 0 <= j < last && #[trigger] marked(eligible, j) {
        lemma_leader_exists(candidates, eligible, last);
        let i = choose|i: int| #[trigger] leads(candidates, eligible, last, i);
        if marked(eligible, last) && ranks_before(
            candidates[last].length@,
            candidates[i].length@,
        ) {
            assert(leads(candidates, eligible, count, last));
        } else {
            assert(leads(candidates, eligible, count, i));
        }
    } else {
        assert(leads(candidates, eligible, count, last));
    }
}

/// Where a candidate is eligible, a choice exists.
pub proof fn lemma_choice_exists(candidates: Seq<DubinsStruct>, eligible: Seq<bool>)
    requires
        exists|j: int| 0 <= j < candidates.len() && #[trigger] marked(eligible, j),
    ensures
        exists|i: int| #[trigger] is_choice(candidates, eligible, i),
{
    lemma_leader_exists(candidates, eligible, candidates.len() as int);
    let i = choose|i: int| #[trigger] leads(candidates, eligible, candidates.len() as int, i);
    assert(is_choice(candidates, eligible, i));
}

/// At most one candidate is the choice.
pub proof fn lemma_choice_is_unique(
    candidates: Seq<DubinsStruct>,
    eligible: Seq<bool>,
    i: int,
    j: int,
)
    requires
        is_choice(candidates, eligible, i),
        is_choice(candidates, eligible, j),
    ensures
        i == j,
{
    assert(marked(eligible, i) && marked(eligible, j));
}

/// A candidate is the choice exactly when [`choice`] names it, and a path is
/// a selection exactly when it is the [`selection`].
pub proof fn lemma_choice_is_a_function(
    candidates: Seq<DubinsStruct>,
    eligible: Seq<bool>,
    i: int,
    chosen: DubinsStruct,
)
    ensures
        is_choice(candidates, eligible, i) <==> choice(candidates, eligible) == Some(i),
        is_selection(candidates, eligible, chosen) <==> chosen == selection(candidates, eligible),
{
    if exists|j: int| 0 <= j < candidates.len() && #[trigger] marked(eligible, j) {
        lemma_choice_exists(candidates, eligible);
        let k = choose|k: int| #[trigger] is_choice(candidates, eligible, k);
        if is_choice(candidates, eligible, i) {
            lemma_choice_is_unique(candidates, eligible, i, k);
        }
        if is_selection(candidates, eligible, chosen) {
            let n = choose|n: int| #[trigger]
                is_choice(candidates, eligible, n) && chosen == candidates[n];
            lemma_choice_is_unique(candidates, eligible, n, k);
        }
    } else {
        if is_choice(candidates, eligible, i) {
            assert(marked(eligible, i));
        }
    }
}

/// The index of the eligible candidate of least rank, the earliest of them
/// where several rank equal; `None` where no candidate is eligible. A
/// candidate is eligible when `eligible` holds `true` at its index.
pub fn select(candidates: &Vec<DubinsStruct>, eligible: &Vec<bool>) -> (r: Option<usize>)
    ensures
        match r {
            Some(i) => is_choice(candidates@, eligible@, i as int),
            None => forall|j: int| 0 <= j < candidates.len() ==> !marked(eligible@, j),
        },
        match r {
            Some(i) => choice(candidates@, eligible@) == Some(i as int),
            None => choice(candidates@, eligible@) is None,
        },
{
    let mut best: Option<usize> = None;
    let mut k: usize = 0;
    while k < candidates.len()
        invariant
            k <= candidates.len(),
            match best {
                Some(i) => leads(candidates@, eligible@, k as int, i as int),
                None => forall|j: int| 0 <= j < k ==> !marked(eligible@, j),
            },
        decreases candidates.len() - k,
    {
        if k < eligible.len() && eligible[k] {
            match best {
                None => {
                    best = Some(k);
                },
                Some(i) => {
                    if shorter(candidates[k].length, candidates[i].length) {
                        best = Some(k);
                    }
                },
            }
        }
        k = k + 1;
    }
    proof {
        if let Some(i) = best {
            lemma_choice_is_a_function(
                candidates@,
                eligible@,
                i as int,
                DubinsStruct::spec_unset(),
            );
        }
    }
    best
}

/// The chosen candidate: the one that [`select`] finds, or the unset path.
pub fn chosen(candidates: &Vec<DubinsStruct>, eligible: &Vec<bool>) -> (r: DubinsStruct)
    ensures
        is_selection(candidates@, eligible@, r),
        r == selection(candidates@, eligible@),
{
    match select(candidates, eligible) {
        Some(i) => {
            assert(marked(eligible@, i as int));
            candidates[i]
        },
        None => DubinsStruct::unset(),
    }
}

/// What the caller has computed of one planar problem: the problem in the
/// frame of the chord from start to goal, and for each family the numbers that
/// its formula gives where the family is feasible.
#[derive(Copy, Clone)]
pub struct PlanarEvaluation {
    /// The length of the chord over the radius.
    pub d: Scalar,
    /// The start heading in the chord frame, normalized.
    pub a: Scalar,
    /// The goal heading in the chord frame, normalized.
    pub b: Scalar,
    /// The offset from goal to start along the first axis, not rotated.
    pub dx: Scalar,
    /// The offset from goal to start along the second axis, not rotated.
    pub dy: Scalar,
    /// The radius times one hundred-thousandth.
    pub tolerance: Scalar,
    /// Left, straight, left.
    pub lsl: Arcs,
    /// Right, straight, right.
    pub rsr: Arcs,
    /// The squared straight length of left, straight, right.
    pub lsr_discriminant: Scalar,
    /// Left, straight, right, where the discriminant is not negative.
    pub lsr: Arcs,
    /// The squared straight length of right, straight, left.
    pub rsl_discriminant: Scalar,
    /// Right, straight, left, where the discriminant is not negative.
    pub rsl: Arcs,
    /// The cosine of the middle turn of right, left, right.
    pub rlr_cosine: Scalar,
    /// Right, left, right, where the cosine is one in size at most.
    pub rlr: Arcs,
    /// The cosine of the middle turn of left, right, left.
    pub lrl_cosine: Scalar,
    /// Left, right, left, where the cosine is one in size at most.
    pub lrl: Arcs,
    /// The length of one full circle of the radius.
    pub circumference: Scalar,
}

/// Whether a discriminant leaves a real straight segment: it is not negative.
/// At zero the straight segment has no length. A discriminant that is no
/// number leaves none.
pub open spec fn discriminant_admits(discriminant: Scalar) -> bool {
    number_le(Scalar::spec_zero()@, discriminant@)
}

/// Whether a value can be a cosine: its size is at most one.
pub open spec fn cosine_admits(cosine: Scalar) -> bool {
    number_le(number_abs(cosine@), Scalar::spec_one()@)
}

/// The candidate left, straight, left: always attempted.
pub fn lsl(arcs: Arcs) -> (r: DubinsStruct)
    ensures
        r == DubinsStruct::spec_of(arcs, ManeuverCase::lsl()),
{
    DubinsStruct::of(
        arcs,
        ManeuverCase::of(SegmentType::LEFT, SegmentType::STRAIGHT, SegmentType::LEFT),
    )
}

/// The candidate right, straight, right: always attempted.
pub fn rsr(arcs: Arcs) -> (r: DubinsStruct)
    ensures
        r == DubinsStruct::spec_of(arcs, ManeuverCase::rsr()),
{
    DubinsStruct::of(
        arcs,
        ManeuverCase::of(SegmentType::RIGHT, SegmentType::STRAIGHT, SegmentType::RIGHT),
    )
}

/// The candidate left, straight, right: feasible where its discriminant is
/// not negative.
pub fn lsr(discriminant: Scalar, arcs: Arcs) -> (r: DubinsStruct)
    ensures
        r == DubinsStruct::gated(discriminant_admits(discriminant), arcs, ManeuverCase::lsr()),
{
    let case = ManeuverCase::of(SegmentType::LEFT, SegmentType::STRAIGHT, SegmentType::RIGHT);
    if discriminant.ge(Scalar::zero()) {
        DubinsStruct::of(arcs, case)
    } else {
        DubinsStruct::infeasible(case)
    }
}

/// The candidate right, straight, left: feasible where its discriminant is
/// not negative.
pub fn rsl(discriminant: Scalar, arcs: Arcs) -> (r: DubinsStruct)
    ensures
        r == DubinsStruct::gated(discriminant_admits(discriminant), arcs, ManeuverCase::rsl()),
{
    let case = ManeuverCase::of(SegmentType::RIGHT, SegmentType::STRAIGHT, SegmentType::LEFT);
    if discriminant.ge(Scalar::zero()) {
        DubinsStruct::of(arcs, case)
    } else {
        DubinsStruct::infeasible(case)
    }
}

/// The candidate right, left, right: feasible where the cosine of its middle
/// turn is one in size at most.
pub fn rlr(cosine: Scalar, arcs: Arcs) -> (r: DubinsStruct)
    ensures
        r == DubinsStruct::gated(cosine_admits(cosine), arcs, ManeuverCase::rlr()),
{
    let case = ManeuverCase::of(SegmentType::RIGHT, SegmentType::LEFT, SegmentType::RIGHT);
    if cosine.abs().le(Scalar::one()) {
        DubinsStruct::of(arcs, case)
    } else {
        DubinsStruct::infeasible(case)
    }
}

/// The candidate left, right, left: feasible where the cosine of its middle
/// turn is one in size at most.
pub fn lrl(cosine: Scalar, arcs: Arcs) -> (r: DubinsStruct)
    ensures
        r == DubinsStruct::gated(cosine_admits(cosine), arcs, ManeuverCase::lrl()),
{
    let case = ManeuverCase::of(SegmentType::LEFT, SegmentType::RIGHT, SegmentType::LEFT);
    if cosine.abs().le(Scalar::one()) {
        DubinsStruct::of(arcs, case)
    } else {
        DubinsStruct::infeasible(case)
    }
}

/// One full circle of the given length: the path between two poses that
/// coincide.
pub open spec fn spec_full_circle(circumference: Scalar) -> DubinsStruct {
    DubinsStruct {
        t: Scalar::spec_zero(),
        p: Scalar::spec_two_pi(),
        q: Scalar::spec_zero(),
        length: circumference,
        case: ManeuverCase::circle(),
    }
}

/// One full circle of the given length: the path between two poses that
/// coincide.
#[verifier::when_used_as_spec(spec_full_circle)]
pub fn full_circle(circumference: Scalar) -> (r: DubinsStruct)
    ensures
        r == spec_full_circle(circumference),
{
    DubinsStruct {
        t: Scalar::zero(),
        p: Scalar::two_pi(),
        q: Scalar::zero(),
        length: circumference,
        case: ManeuverCase::of(SegmentType::RIGHT, SegmentType::RIGHT, SegmentType::RIGHT),
    }
}

impl PlanarEvaluation {
    /// Whether start and goal coincide: the chord and both headings in its
    /// frame are smaller than the tolerance, and so is the larger of the two
    /// raw offsets.
    pub open spec fn spec_coincident(&self) -> bool {
        &&& number_lt(number_abs(self.d@), self.tolerance@)
        &&& number_lt(number_abs(self.a@), self.tolerance@)
        &&& number_lt(number_abs(self.b@), self.tolerance@)
        &&& number_lt(self.dx.abs_spec().max_spec(self.dy.abs_spec())@, self.tolerance@)
    }

    /// Whether start and goal coincide.
    #[verifier::when_used_as_spec(spec_coincident)]
    pub fn coincident(&self) -> (r: bool)
        ensures
            r == self.spec_coincident(),
    {
        if self.d.abs().lt(self.tolerance) && self.a.abs().lt(self.tolerance) && self.b.abs().lt(
            self.tolerance,
        ) {
            let apart = self.dx.abs().max(self.dy.abs());
            apart.lt(self.tolerance)
        } else {
            false
        }
    }

    /// The candidates of the problem, in the order in which ties are broken:
    /// the one full circle where the poses coincide, else the four families
    /// with a straight segment, followed by the two of three turns unless
    /// those are disabled.
    pub open spec fn candidates(self, disable_ccc: bool) -> Seq<DubinsStruct> {
        if self.spec_coincident() {
            seq![spec_full_circle(self.circumference)]
        } else {
            let straight = seq![
                DubinsStruct::spec_of(self.lsl, ManeuverCase::lsl()),
                DubinsStruct::spec_of(self.rsr, ManeuverCase::rsr()),
                DubinsStruct::gated(
                    discriminant_admits(self.lsr_discriminant),
                    self.lsr,
                    ManeuverCase::lsr(),
                ),
                DubinsStruct::gated(
                    discriminant_admits(self.rsl_discriminant),
                    self.rsl,
                    ManeuverCase::rsl(),
                ),
            ];
            if disable_ccc {
                straight
            } else {
                straight.push(
                    DubinsStruct::gated(
                        cosine_admits(self.rlr_cosine),
                        self.rlr,
                        ManeuverCase::rlr(),
                    ),
                ).push(
                    DubinsStruct::gated(
                        cosine_admits(self.lrl_cosine),
                        self.lrl,
                        ManeuverCase::lrl(),
                    ),
                )
            }
        }
    }
}

/// Whether a length meets a floor. Negative infinity is no floor: every
/// length meets it, a NaN too. No NaN meets any other floor.
pub open spec fn meets_floor(length: Scalar, min_length: Scalar) -> bool {
    min_length.bits == NEG_INFINITY_BITS || number_le(min_length@, length@)
}

/// For each candidate, whether its length meets the floor.
pub open spec fn floor_flags(candidates: Seq<DubinsStruct>, min_length: Scalar) -> Seq<bool> {
    Seq::new(candidates.len(), |i: int| meets_floor(candidates[i].length, min_length))
}

/// A planar maneuver: the two poses, the radius and the chosen path.
#[derive(Copy, Clone)]
pub struct DubinsManeuver2D {
    pub qi: (Scalar, Scalar, Scalar),
    pub qf: (Scalar, Scalar, Scalar),
    pub rhomin: Scalar,
    pub maneuver: DubinsStruct,
}

impl DubinsManeuver2D {
    /// The maneuver between two poses: the poses and the radius as they are
    /// given, and for its path the selection among the candidates of the
    /// evaluation whose length meets `min_length`.
    pub open spec fn spec_new(
        qi: (Scalar, Scalar, Scalar),
        qf: (Scalar, Scalar, Scalar),
        rhomin: Scalar,
        min_length: Scalar,
        disable_ccc: bool,
        evaluation: &PlanarEvaluation,
    ) -> DubinsManeuver2D {
        DubinsManeuver2D {
            qi,
            qf,
            rhomin,
            maneuver: selection(
                evaluation.candidates(disable_ccc),
                floor_flags(evaluation.candidates(disable_ccc), min_length),
            ),
        }
    }

    /// The maneuver between two poses: of the candidates of the evaluation,
    /// the shortest whose length meets `min_length`, where negative infinity
    /// asks for the shortest of all. Where several are equally short the
    /// earliest family wins; where none meets the floor the path stays unset.
    #[verifier::when_used_as_spec(spec_new)]
    pub fn new(
        qi: (Scalar, Scalar, Scalar),
        qf: (Scalar, Scalar, Scalar),
        rhomin: Scalar,
        min_length: Scalar,
        disable_ccc: bool,
        evaluation: &PlanarEvaluation,
    ) -> (r: DubinsManeuver2D)
        ensures
            r == DubinsManeuver2D::spec_new(qi, qf, rhomin, min_length, disable_ccc, evaluation),
            r.qi == qi,
            r.qf == qf,
            r.rhomin == rhomin,
            is_selection(
                evaluation.candidates(disable_ccc),
                floor_flags(evaluation.candidates(disable_ccc), min_length),
                r.maneuver,
            ),
    {
        let mut paths: Vec<DubinsStruct> = Vec::new();
        if evaluation.coincident() {
            paths.push(full_circle(evaluation.circumference));
        } else {
            paths.push(lsl(evaluation.lsl));
            paths.push(rsr(evaluation.rsr));
            paths.push(lsr(evaluation.lsr_discriminant, evaluation.lsr));
            paths.push(rsl(evaluation.rsl_discriminant, evaluation.rsl));
            if !disable_ccc {
                paths.push(rlr(evaluation.rlr_cosine, evaluation.rlr));
                paths.push(lrl(evaluation.lrl_cosine, evaluation.lrl));
            }
        }
        assert(paths@ =~= evaluation.candidates(disable_ccc));
        let no_floor = min_length.to_bits() == NEG_INFINITY_BITS;
        let mut flags: Vec<bool> = Vec::new();
        let mut k: usize = 0;
        while k < paths.len()
            invariant
                k <= paths.len(),
                flags.len() == k,
                no_floor == (min_length.bits == NEG_INFINITY_BITS),
                forall|j: int| 0 <= j < k ==> flags[j] == meets_floor(paths[j].length, min_length),
            decreases paths.len() - k,
        {
            flags.push(no_floor || min_length.le(paths[k].length));
            k = k + 1;
        }
        assert(flags@ =~= floor_flags(paths@, min_length));
        DubinsManeuver2D { qi, qf, rhomin, maneuver: chosen(&paths, &flags) }
    }
}


/// Where the two poses coincide, the chosen path is the one full circle,
/// provided its length meets the floor.
pub proof fn lemma_coincident_poses_take_full_circle(
    evaluation: PlanarEvaluation,
    disable_ccc: bool,
    min_length: Scalar,
    chosen: DubinsStruct,
)
    requires
        evaluation.spec_coincident(),
        meets_floor(evaluation.circumference, min_length),
        is_selection(
            evaluation.candidates(disable_ccc),
            floor_flags(evaluation.candidates(disable_ccc), min_length),
            chosen,
        ),
    ensures
        chosen == spec_full_circle(evaluation.circumference),
        chosen.case == ManeuverCase::circle(),
        chosen.length == evaluation.circumference,
{
    let candidates = evaluation.candidates(disable_ccc);
    let flags = floor_flags(candidates, min_length);
    assert(marked(flags, 0));
}

/// The choice depends on the candidates alone: two selections from the same
/// candidates are the same path.
pub proof fn lemma_selection_is_unique(
    candidates: Seq<DubinsStruct>,
    eligible: Seq<bool>,
    first: DubinsStruct,
    second: DubinsStruct,
)
    requires
        is_selection(candidates, eligible, first),
        is_selection(candidates, eligible, second),
    ensures
        first == second,
{
    if exists|j: int| 0 <= j < candidates.len() && #[trigger] marked(eligible, j) {
        let i = choose|i: int| #[trigger]
            is_choice(candidates, eligible, i) && first == candidates[i];
        let k = choose|k: int| #[trigger]
            is_choice(candidates, eligible, k) && second == candidates[k];
        lemma_choice_is_unique(candidates, eligible, i, k);
    }
}

/// No eligible candidate ranks strictly before the chosen one, and the chosen
/// one is a candidate that is eligible.
pub proof fn lemma_selection_is_shortest(
    candidates: Seq<DubinsStruct>,
    eligible: Seq<bool>,
    chosen: DubinsStruct,
    j: int,
)
    requires
        is_selection(candidates, eligible, chosen),
        0 <= j < candidates.len(),
        marked(eligible, j),
    ensures
        !ranks_before(candidates[j].length@, chosen.length@),
        exists|i: int|
            0 <= i < candidates.len() && #[trigger] marked(eligible, i) && chosen
                == candidates[i],
{
    let i = choose|i: int| #[trigger] is_choice(candidates, eligible, i) && chosen == candidates[i];
    assert(marked(eligible, i));
}

/// One of the three segments of a path, by its place.
#[derive(Copy, Clone, PartialEq, Eq, Structural)]
pub enum Leg {
    First,
    Second,
    Third,
}

impl DubinsManeuver2D {
    /// The segment on which a point of the path lies. `offset` is the arc
    /// length from the start over the radius, `first_two` the sum of the first
    /// two segment parameters. The point lies on the first segment where the
    /// offset is below the first parameter, else on the second where it is
    /// below `first_two`, else on the third.
    pub fn leg_at(&self, offset: Scalar, first_two: Scalar) -> (r: Leg)
        ensures
            r == if number_lt(offset@, self.maneuver.t@) {
                Leg::First
            } else if number_lt(offset@, first_two@) {
                Leg::Second
            } else {
                Leg::Third
            },
    {
        if offset.lt(self.maneuver.t) {
            Leg::First
        } else if offset.lt(first_two) {
            Leg::Second
        } else {
            Leg::Third
        }
    }

    /// The kind of one segment of the chosen path.
    pub fn segment(&self, leg: Leg) -> (r: SegmentType)
        ensures
            r == match leg {
                Leg::First => self.maneuver.case.a,
                Leg::Second => self.maneuver.case.b,
                Leg::Third => self.maneuver.case.c,
            },
    {
        match leg {
            Leg::First => self.maneuver.case.a,
            Leg::Second => self.maneuver.case.b,
            Leg::Third => self.maneuver.case.c,
        }
    }
}

} // verus!
