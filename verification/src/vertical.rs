//! Maneuvers in the vertical plane, where the heading is a pitch that must
//! stay between two limits.
//!
//! Only the four families with a straight segment exist here. The two with
//! turns of one direction fall back to a single turn where a turn would
//! exceed half a circle; the two with turns of both directions are clamped to
//! the pitch limit that they approach. As in the horizontal plane the
//! formulas are the caller's: each evaluation holds the numbers of every
//! outcome that a family can take, and this module decides which one holds.

use vstd::prelude::*;
use crate::scalar::{Scalar, number_abs, number_le, number_lt};
use crate::dubins2d::{
    Arcs,
    DubinsManeuver2D,
    DubinsStruct,
    ManeuverCase,
    SegmentType,
    choice,
    is_choice,
    is_selection,
    lemma_choice_is_a_function,
    marked,
    select,
    selection,
};

verus! {

/// The numbers of one vertical path, and the pitch at which its first turn
/// ends.
#[derive(Copy, Clone)]
pub struct Profile {
    pub arcs: Arcs,
    pub apex: Scalar,
}

impl Profile {
    /// A family without a path: every number is positive infinity.
    pub open spec fn spec_infeasible() -> Profile {
        Profile {
            arcs: Arcs {
                t: Scalar::spec_infinity(),
                p: Scalar::spec_infinity(),
                q: Scalar::spec_infinity(),
                length: Scalar::spec_infinity(),
            },
            apex: Scalar::spec_infinity(),
        }
    }

    /// A family without a path.
    #[verifier::when_used_as_spec(spec_infeasible)]
    pub fn infeasible() -> (r: Profile)
        ensures
            r == Profile::spec_infeasible(),
    {
        Profile {
            arcs: Arcs {
                t: Scalar::infinity(),
                p: Scalar::infinity(),
                q: Scalar::infinity(),
                length: Scalar::infinity(),
            },
            apex: Scalar::infinity(),
        }
    }

    /// Whether the path may be chosen: both turns stay below half a circle,
    /// and the pitch at the end of the first turn lies within the limits.
    pub open spec fn spec_admissible(&self, pitchmax: (Scalar, Scalar)) -> bool {
        &&& number_lt(number_abs(self.arcs.t@), Scalar::spec_pi()@)
        &&& number_lt(number_abs(self.arcs.q@), Scalar::spec_pi()@)
        &&& number_le(pitchmax.0@, self.apex@)
        &&& number_le(self.apex@, pitchmax.1@)
    }

    /// Whether the path may be chosen.
    #[verifier::when_used_as_spec(spec_admissible)]
    pub fn admissible(&self, pitchmax: (Scalar, Scalar)) -> (r: bool)
        ensures
            r == self.spec_admissible(pitchmax),
    {
        self.arcs.t.abs().lt(Scalar::pi()) && self.arcs.q.abs().lt(Scalar::pi()) && pitchmax.0.le(
            self.apex,
        ) && self.apex.le(pitchmax.1)
    }
}

/// Whether a turn exceeds half a circle.
pub open spec fn spec_exceeds_half_turn(turn: Scalar) -> bool {
    number_lt(Scalar::spec_pi()@, turn@)
}

/// Whether a turn exceeds half a circle.
#[verifier::when_used_as_spec(spec_exceeds_half_turn)]
pub fn exceeds_half_turn(turn: Scalar) -> (r: bool)
    ensures
        r == spec_exceeds_half_turn(turn),
{
    turn.gt(Scalar::pi())
}

/// Whether a straight run can replace a dropped turn: the pitch of the run is
/// more than one hundred-thousandth in size, and the height to cover has the
/// sign of that pitch.
pub open spec fn spec_run_agrees(pitch: Scalar, offset: Scalar) -> bool {
    &&& number_lt(Scalar::spec_hundred_thousandth()@, number_abs(pitch@))
    &&& number_lt(offset@, Scalar::spec_zero()@) == number_lt(pitch@, Scalar::spec_zero()@)
}

/// Whether a straight run can replace a dropped turn.
#[verifier::when_used_as_spec(spec_run_agrees)]
pub fn run_agrees(pitch: Scalar, offset: Scalar) -> (r: bool)
    ensures
        r == spec_run_agrees(pitch, offset),
{
    pitch.abs().gt(Scalar::hundred_thousandth()) && (offset.lt(Scalar::zero()) == pitch.lt(
        Scalar::zero(),
    ))
}

/// What the caller has computed of a family whose two turns have the same
/// direction.
#[derive(Copy, Clone)]
pub struct TwoTurnEvaluation {
    /// The path with both turns.
    pub direct: Profile,
    /// The change of pitch from start to goal, in the direction of the turns.
    pub sweep: Scalar,
    /// With the first turn dropped: the height that the straight run covers.
    pub first_offset: Scalar,
    /// With the first turn dropped: the length of the run over the radius.
    pub first_run: Scalar,
    /// With the first turn dropped: the length of the path.
    pub first_length: Scalar,
    /// With the second turn dropped: the height that the straight run covers.
    pub second_offset: Scalar,
    /// With the second turn dropped: the length of the run over the radius.
    pub second_run: Scalar,
    /// With the second turn dropped: the length of the path.
    pub second_length: Scalar,
    /// With the second turn dropped: the pitch at the end of the first turn.
    pub swept_apex: Scalar,
}

impl TwoTurnEvaluation {
    /// The path without its first turn: a straight run at the start pitch,
    /// then one turn through the whole change of pitch.
    pub open spec fn first_dropped(self, start_pitch: Scalar) -> Profile {
        Profile {
            arcs: Arcs {
                t: Scalar::spec_zero(),
                p: self.first_run,
                q: self.sweep,
                length: self.first_length,
            },
            apex: start_pitch,
        }
    }

    /// The path without its second turn: one turn through the whole change of
    /// pitch, then a straight run at the goal pitch.
    pub open spec fn second_dropped(self) -> Profile {
        Profile {
            arcs: Arcs {
                t: self.sweep,
                p: self.second_run,
                q: Scalar::spec_zero(),
                length: self.second_length,
            },
            apex: self.swept_apex,
        }
    }

    /// The path after the first turn has been looked at: the direct path
    /// where that turn stays within half a circle; else the path without it,
    /// where a straight run can replace it; else none.
    pub open spec fn after_first(self, start_pitch: Scalar) -> Profile {
        if spec_exceeds_half_turn(self.direct.arcs.t) {
            if spec_run_agrees(start_pitch, self.first_offset) {
                self.first_dropped(start_pitch)
            } else {
                Profile::spec_infeasible()
            }
        } else {
            self.direct
        }
    }

    /// The path of the family: what [`Self::after_first`] gives where its
    /// second turn stays within half a circle; else the path without the
    /// second turn, where a straight run can replace it; else none.
    pub open spec fn spec_resolve(&self, start_pitch: Scalar, goal_pitch: Scalar) -> Profile {
        let first = self.after_first(start_pitch);
        if spec_exceeds_half_turn(first.arcs.q) {
            if spec_run_agrees(goal_pitch, self.second_offset) {
                self.second_dropped()
            } else {
                Profile::spec_infeasible()
            }
        } else {
            first
        }
    }

    /// The path of the family.
    #[verifier::when_used_as_spec(spec_resolve)]
    pub fn resolve(&self, start_pitch: Scalar, goal_pitch: Scalar) -> (r: Profile)
        ensures
            r == self.spec_resolve(start_pitch, goal_pitch),
    {
        let first = if exceeds_half_turn(self.direct.arcs.t) {
            if run_agrees(start_pitch, self.first_offset) {
                Profile {
                    arcs: Arcs {
                        t: Scalar::zero(),
                        p: self.first_run,
                        q: self.sweep,
                        length: self.first_length,
                    },
                    apex: start_pitch,
                }
            } else {
                Profile::infeasible()
            }
        } else {
            self.direct
        };
        if exceeds_half_turn(first.arcs.q) {
            if run_agrees(goal_pitch, self.second_offset) {
                Profile {
                    arcs: Arcs {
                        t: self.sweep,
                        p: self.second_run,
                        q: Scalar::zero(),
                        length: self.second_length,
                    },
                    apex: self.swept_apex,
                }
            } else {
                Profile::infeasible()
            }
        } else {
            first
        }
    }
}

/// What the caller has computed of a family whose two turns have opposite
/// directions, for one pitch limit.
#[derive(Copy, Clone)]
pub struct TangentEvaluation {
    /// The distance between the centers of the two turning circles.
    pub separation: Scalar,
    /// The pitch of the common tangent where the circles lie apart.
    pub crossing_apart: Scalar,
    /// The pitch that stands for it where the circles overlap.
    pub crossing_overlapping: Scalar,
    /// The path along the tangent where the circles lie apart.
    pub free_apart: Profile,
    /// The path where the circles overlap.
    pub free_overlapping: Profile,
    /// The path whose straight segment climbs at the pitch limit.
    pub clamped: Profile,
}

impl TangentEvaluation {
    /// Whether the two circles overlap: their centers are closer than twice
    /// the radius.
    pub open spec fn overlapping(self, radius: Scalar) -> bool {
        number_lt(self.separation@, radius.spec_doubled()@)
    }

    /// The pitch of the straight segment before any limit is applied.
    pub open spec fn crossing(self, radius: Scalar) -> Scalar {
        if self.overlapping(radius) {
            self.crossing_overlapping
        } else {
            self.crossing_apart
        }
    }

    /// The path whose straight segment has that pitch.
    pub open spec fn free(self, radius: Scalar) -> Profile {
        if self.overlapping(radius) {
            self.free_overlapping
        } else {
            self.free_apart
        }
    }

    /// The path of a family that climbs between its turns: the free path
    /// where its pitch stays below the upper limit, else the clamped one.
    pub open spec fn spec_resolve_climbing(&self, radius: Scalar, limit: Scalar) -> Profile {
        if number_lt(self.crossing(radius)@, limit@) {
            self.free(radius)
        } else {
            self.clamped
        }
    }

    /// The path of a family that climbs between its turns.
    #[verifier::when_used_as_spec(spec_resolve_climbing)]
    pub fn resolve_climbing(&self, radius: Scalar, limit: Scalar) -> (r: Profile)
        ensures
            r == self.spec_resolve_climbing(radius, limit),
    {
        if self.separation.lt(radius.doubled()) {
            if self.crossing_overlapping.lt(limit) {
                self.free_overlapping
            } else {
                self.clamped
            }
        } else {
            if self.crossing_apart.lt(limit) {
                self.free_apart
            } else {
                self.clamped
            }
        }
    }

    /// The path of a family that dives between its turns: the free path where
    /// its pitch stays above the lower limit, else the clamped one.
    pub open spec fn spec_resolve_diving(&self, radius: Scalar, limit: Scalar) -> Profile {
        if number_lt(limit@, self.crossing(radius)@) {
            self.free(radius)
        } else {
            self.clamped
        }
    }

    /// The path of a family that dives between its turns.
    #[verifier::when_used_as_spec(spec_resolve_diving)]
    pub fn resolve_diving(&self, radius: Scalar, limit: Scalar) -> (r: Profile)
        ensures
            r == self.spec_resolve_diving(radius, limit),
    {
        if self.separation.lt(radius.doubled()) {
            if self.crossing_overlapping.gt(limit) {
                self.free_overlapping
            } else {
                self.clamped
            }
        } else {
            if self.crossing_apart.gt(limit) {
                self.free_apart
            } else {
                self.clamped
            }
        }
    }
}

/// The path left, straight, left: attempted only where the start pitch is at
/// most the goal pitch.
pub open spec fn spec_lsl(
    evaluation: &TwoTurnEvaluation,
    start_pitch: Scalar,
    goal_pitch: Scalar,
) -> Profile {
    if number_le(start_pitch@, goal_pitch@) {
        evaluation.spec_resolve(start_pitch, goal_pitch)
    } else {
        Profile::spec_infeasible()
    }
}

/// The path left, straight, left.
#[verifier::when_used_as_spec(spec_lsl)]
pub fn lsl(evaluation: &TwoTurnEvaluation, start_pitch: Scalar, goal_pitch: Scalar) -> (r: Profile)
    ensures
        r == spec_lsl(evaluation, start_pitch, goal_pitch),
{
    if start_pitch.le(goal_pitch) {
        evaluation.resolve(start_pitch, goal_pitch)
    } else {
        Profile::infeasible()
    }
}

/// The path right, straight, right: attempted only where the goal pitch is at
/// most the start pitch.
pub open spec fn spec_rsr(
    evaluation: &TwoTurnEvaluation,
    start_pitch: Scalar,
    goal_pitch: Scalar,
) -> Profile {
    if number_le(goal_pitch@, start_pitch@) {
        evaluation.spec_resolve(start_pitch, goal_pitch)
    } else {
        Profile::spec_infeasible()
    }
}

/// The path right, straight, right.
#[verifier::when_used_as_spec(spec_rsr)]
pub fn rsr(evaluation: &TwoTurnEvaluation, start_pitch: Scalar, goal_pitch: Scalar) -> (r: Profile)
    ensures
        r == spec_rsr(evaluation, start_pitch, goal_pitch),
{
    if goal_pitch.le(start_pitch) {
        evaluation.resolve(start_pitch, goal_pitch)
    } else {
        Profile::infeasible()
    }
}

/// The path left, straight, right: it climbs between its turns, at most at
/// the upper pitch limit.
pub open spec fn spec_lsr(
    evaluation: &TangentEvaluation,
    rhomin: Scalar,
    pitchmax: (Scalar, Scalar),
) -> Profile {
    evaluation.spec_resolve_climbing(rhomin, pitchmax.1)
}

/// The path left, straight, right.
#[verifier::when_used_as_spec(spec_lsr)]
pub fn lsr(evaluation: &TangentEvaluation, rhomin: Scalar, pitchmax: (Scalar, Scalar)) -> (r:
    Profile)
    ensures
        r == spec_lsr(evaluation, rhomin, pitchmax),
{
    evaluation.resolve_climbing(rhomin, pitchmax.1)
}

/// The path right, straight, left: it dives between its turns, at least at
/// the lower pitch limit.
pub open spec fn spec_rsl(
    evaluation: &TangentEvaluation,
    rhomin: Scalar,
    pitchmax: (Scalar, Scalar),
) -> Profile {
    evaluation.spec_resolve_diving(rhomin, pitchmax.0)
}

/// The path right, straight, left.
#[verifier::when_used_as_spec(spec_rsl)]
pub fn rsl(evaluation: &TangentEvaluation, rhomin: Scalar, pitchmax: (Scalar, Scalar)) -> (r:
    Profile)
    ensures
        r == spec_rsl(evaluation, rhomin, pitchmax),
{
    evaluation.resolve_diving(rhomin, pitchmax.0)
}

/// What the caller has computed of one problem in the vertical plane.
#[derive(Copy, Clone)]
pub struct VerticalEvaluation {
    /// Left, straight, left.
    pub lsl: TwoTurnEvaluation,
    /// Right, straight, right.
    pub rsr: TwoTurnEvaluation,
    /// Left, straight, right, against the upper pitch limit.
    pub lsr: TangentEvaluation,
    /// Right, straight, left, against the lower pitch limit.
    pub rsl: TangentEvaluation,
}

impl VerticalEvaluation {
    /// The paths of the four families, in the order in which ties are broken.
    pub open spec fn profiles(
        self,
        qi: (Scalar, Scalar, Scalar),
        qf: (Scalar, Scalar, Scalar),
        rhomin: Scalar,
        pitchmax: (Scalar, Scalar),
    ) -> Seq<Profile> {
        seq![
            spec_lsr(&self.lsr, rhomin, pitchmax),
            spec_lsl(&self.lsl, qi.2, qf.2),
            spec_rsr(&self.rsr, qi.2, qf.2),
            spec_rsl(&self.rsl, rhomin, pitchmax),
        ]
    }

    /// The cases of the four families, in the same order.
    pub open spec fn cases() -> Seq<ManeuverCase> {
        seq![ManeuverCase::lsr(), ManeuverCase::lsl(), ManeuverCase::rsr(), ManeuverCase::rsl()]
    }

    /// The four candidates.
    pub open spec fn candidates(
        self,
        qi: (Scalar, Scalar, Scalar),
        qf: (Scalar, Scalar, Scalar),
        rhomin: Scalar,
        pitchmax: (Scalar, Scalar),
    ) -> Seq<DubinsStruct> {
        Seq::new(
            4,
            |i: int|
                DubinsStruct::spec_of(
                    self.profiles(qi, qf, rhomin, pitchmax)[i].arcs,
                    Self::cases()[i],
                ),
        )
    }

    /// For each candidate, whether it may be chosen.
    pub open spec fn flags(
        self,
        qi: (Scalar, Scalar, Scalar),
        qf: (Scalar, Scalar, Scalar),
        rhomin: Scalar,
        pitchmax: (Scalar, Scalar),
    ) -> Seq<bool> {
        Seq::new(4, |i: int| self.profiles(qi, qf, rhomin, pitchmax)[i].spec_admissible(pitchmax))
    }

    /// The maneuver between the two poses: the poses and the radius as they
    /// are given, and for its path the selection among the four candidates
    /// that may be chosen.
    pub open spec fn solution(
        self,
        qi: (Scalar, Scalar, Scalar),
        qf: (Scalar, Scalar, Scalar),
        rhomin: Scalar,
        pitchmax: (Scalar, Scalar),
    ) -> DubinsManeuver2D {
        DubinsManeuver2D {
            qi,
            qf,
            rhomin,
            maneuver: selection(
                self.candidates(qi, qf, rhomin, pitchmax),
                self.flags(qi, qf, rhomin, pitchmax),
            ),
        }
    }

    /// The pitch at which the first turn of that maneuver ends: the apex of
    /// the chosen family, or the start pitch where no path is chosen and
    /// nothing turns.
    pub open spec fn apex(
        self,
        qi: (Scalar, Scalar, Scalar),
        qf: (Scalar, Scalar, Scalar),
        rhomin: Scalar,
        pitchmax: (Scalar, Scalar),
    ) -> Scalar {
        match choice(
            self.candidates(qi, qf, rhomin, pitchmax),
            self.flags(qi, qf, rhomin, pitchmax),
        ) {
            Some(i) => self.profiles(qi, qf, rhomin, pitchmax)[i].apex,
            None => qi.2,
        }
    }
}

/// Whatever is chosen in the vertical plane may be chosen: it is the unset
/// path, or the path of a family that is admissible, and then both its turns
/// stay below half a circle.
pub proof fn lemma_vertical_choice_is_admissible(
    evaluation: VerticalEvaluation,
    qi: (Scalar, Scalar, Scalar),
    qf: (Scalar, Scalar, Scalar),
    rhomin: Scalar,
    pitchmax: (Scalar, Scalar),
    chosen: DubinsStruct,
)
    requires
        is_selection(
            evaluation.candidates(qi, qf, rhomin, pitchmax),
            evaluation.flags(qi, qf, rhomin, pitchmax),
            chosen,
        ),
    ensures
        chosen.case.a == SegmentType::NONE ==> chosen == DubinsStruct::spec_unset(),
        chosen.case.a != SegmentType::NONE ==> exists|i: int|
            0 <= i < 4 && chosen == #[trigger] evaluation.candidates(qi, qf, rhomin, pitchmax)[i]
                && evaluation.profiles(qi, qf, rhomin, pitchmax)[i].spec_admissible(pitchmax),
        chosen.case.a != SegmentType::NONE ==> number_lt(
            number_abs(chosen.t@),
            Scalar::spec_pi()@,
        ) && number_lt(number_abs(chosen.q@), Scalar::spec_pi()@),
        chosen.case.a != SegmentType::NONE ==> chosen.case.b == SegmentType::STRAIGHT,
{
    let candidates = evaluation.candidates(qi, qf, rhomin, pitchmax);
    let flags = evaluation.flags(qi, qf, rhomin, pitchmax);
    if exists|j: int| 0 <= j < candidates.len() && #[trigger] marked(flags, j) {
        let i = choose|i: int| #[trigger]
            is_choice(candidates, flags, i) && chosen == candidates[i];
        assert(marked(flags, i));
    }
}

/// The maneuver between two poses of the vertical plane, and the pitch at
/// which its first turn ends. Of the four candidates the shortest that may be
/// chosen is taken, the earliest where several are equally short. Where none
/// may be chosen the path stays unset, and the pitch is the start pitch.
pub fn get_vertical_and_apex(
    qi: (Scalar, Scalar, Scalar),
    qf: (Scalar, Scalar, Scalar),
    rhomin: Scalar,
    pitchmax: (Scalar, Scalar),
    evaluation: &VerticalEvaluation,
) -> (r: (DubinsManeuver2D, Scalar))
    ensures
        r.0 == evaluation.solution(qi, qf, rhomin, pitchmax),
        r.1 == evaluation.apex(qi, qf, rhomin, pitchmax),
        r.0.maneuver.case.a == SegmentType::NONE ==> r.0.maneuver == DubinsStruct::spec_unset()
            && r.1 == qi.2,
        r.0.maneuver.case.a != SegmentType::NONE ==> {
            &&& number_lt(number_abs(r.0.maneuver.t@), Scalar::spec_pi()@)
            &&& number_lt(number_abs(r.0.maneuver.q@), Scalar::spec_pi()@)
            &&& r.0.maneuver.case.b == SegmentType::STRAIGHT
            &&& number_le(pitchmax.0@, r.1@)
            &&& number_le(r.1@, pitchmax.1@)
        },
{
    let path_lsr = lsr(&evaluation.lsr, rhomin, pitchmax);
    let path_lsl = lsl(&evaluation.lsl, qi.2, qf.2);
    let path_rsr = rsr(&evaluation.rsr, qi.2, qf.2);
    let path_rsl = rsl(&evaluation.rsl, rhomin, pitchmax);
    let mut paths: Vec<DubinsStruct> = Vec::new();
    let mut flags: Vec<bool> = Vec::new();
    let mut apexes: Vec<Scalar> = Vec::new();
    paths.push(
        DubinsStruct::of(
            path_lsr.arcs,
            ManeuverCase::of(SegmentType::LEFT, SegmentType::STRAIGHT, SegmentType::RIGHT),
        ),
    );
    flags.push(path_lsr.admissible(pitchmax));
    apexes.push(path_lsr.apex);
    paths.push(
        DubinsStruct::of(
            path_lsl.arcs,
            ManeuverCase::of(SegmentType::LEFT, SegmentType::STRAIGHT, SegmentType::LEFT),
        ),
    );
    flags.push(path_lsl.admissible(pitchmax));
    apexes.push(path_lsl.apex);
    paths.push(
        DubinsStruct::of(
            path_rsr.arcs,
            ManeuverCase::of(SegmentType::RIGHT, SegmentType::STRAIGHT, SegmentType::RIGHT),
        ),
    );
    flags.push(path_rsr.admissible(pitchmax));
    apexes.push(path_rsr.apex);
    paths.push(
        DubinsStruct::of(
            path_rsl.arcs,
            ManeuverCase::of(SegmentType::RIGHT, SegmentType::STRAIGHT, SegmentType::LEFT),
        ),
    );
    flags.push(path_rsl.admissible(pitchmax));
    apexes.push(path_rsl.apex);
    assert(paths@ =~= evaluation.candidates(qi, qf, rhomin, pitchmax));
    assert(flags@ =~= evaluation.flags(qi, qf, rhomin, pitchmax));
    match select(&paths, &flags) {
        Some(i) => {
            assert(marked(flags@, i as int));
            (DubinsManeuver2D { qi, qf, rhomin, maneuver: paths[i] }, apexes[i])
        },
        None => (DubinsManeuver2D { qi, qf, rhomin, maneuver: DubinsStruct::unset() }, qi.2),
    }
}

/// The maneuver between two poses of the vertical plane: of the four
/// candidates the shortest that may be chosen, the earliest where several are
/// equally short. Where none may be chosen the path stays unset.
pub fn get_vertical(
    qi: (Scalar, Scalar, Scalar),
    qf: (Scalar, Scalar, Scalar),
    rhomin: Scalar,
    pitchmax: (Scalar, Scalar),
    evaluation: &VerticalEvaluation,
) -> (r: DubinsManeuver2D)
    ensures
        r == evaluation.solution(qi, qf, rhomin, pitchmax),
        r.qi == qi,
        r.qf == qf,
        r.rhomin == rhomin,
        is_selection(
            evaluation.candidates(qi, qf, rhomin, pitchmax),
            evaluation.flags(qi, qf, rhomin, pitchmax),
            r.maneuver,
        ),
        r.maneuver.case.a == SegmentType::NONE ==> r.maneuver == DubinsStruct::spec_unset(),
        r.maneuver.case.a != SegmentType::NONE ==> number_lt(
            number_abs(r.maneuver.t@),
            Scalar::spec_pi()@,
        ) && number_lt(number_abs(r.maneuver.q@), Scalar::spec_pi()@),
{
    let solved = get_vertical_and_apex(qi, qf, rhomin, pitchmax, evaluation);
    proof {
        lemma_choice_is_a_function(
            evaluation.candidates(qi, qf, rhomin, pitchmax),
            evaluation.flags(qi, qf, rhomin, pitchmax),
            0,
            solved.0.maneuver,
        );
    }
    solved.0
}

} // verus!
