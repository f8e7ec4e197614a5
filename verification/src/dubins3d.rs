//! Maneuvers in space: a horizontal path whose arc length is the ground
//! covered by a vertical path, the search for the horizontal radius that
//! makes the vertical path shortest, the two bounds, and the sampling
//! schedule.
//!
//! A maneuver in space is found by trying horizontal radii one after another.
//! The formulas of a trial are the caller's and arrive as a
//! [`TrialEvaluation`]. [`try_to_construct`] solves the two planes from it,
//! between the poses of the maneuver, and judges the outcome;
//! [`RadiusSearch`] decides which radius is tried next and when the search
//! ends.

use vstd::prelude::*;
use vstd::arithmetic::power2::pow2;
use crate::State;
use crate::scalar::{
    Number,
    Scalar,
    lemma_named_values_are_ordered,
    lemma_powers_of_two,
    number_abs,
    number_doubled,
    number_le,
    number_lt,
    power_of_two,
};
use crate::dubins2d::{
    DubinsManeuver2D,
    DubinsStruct,
    ManeuverCase,
    PlanarEvaluation,
    SegmentType,
};
use crate::vertical::{VerticalEvaluation, get_vertical_and_apex};

verus! {

/// Why a maneuver cannot be sampled.
#[derive(Copy, Clone, Debug, PartialEq, Eq, Structural)]
pub enum Error {
    /// The maneuver has no path, or its length is not finite.
    InfeasibleManeuver,
}

/// The place of one sample along a path, as a fraction of its length.
#[derive(Copy, Clone, Debug, PartialEq, Eq, Structural)]
pub struct Fraction {
    pub numerator: i32,
    pub denominator: i32,
}

/// A maneuver in space, as contracts see it.
pub struct Maneuver3D {
    pub qi: State,
    pub qf: State,
    pub rhomin: Scalar,
    pub pitchlims: (Scalar, Scalar),
    /// Empty, or the horizontal path followed by the vertical one.
    pub path: Seq<DubinsManeuver2D>,
    pub length: Scalar,
}

impl Maneuver3D {
    /// A maneuver before any construction: no path, and minus one for its
    /// length.
    pub open spec fn unattempted(
        qi: State,
        qf: State,
        rhomin: Scalar,
        pitchlims: (Scalar, Scalar),
    ) -> Maneuver3D {
        Maneuver3D {
            qi,
            qf,
            rhomin,
            pitchlims,
            path: Seq::empty(),
            length: Scalar::spec_minus_one(),
        }
    }

    /// The same maneuver without a path and with the given length.
    pub open spec fn without_path(self, length: Scalar) -> Maneuver3D {
        Maneuver3D { path: Seq::empty(), length, ..self }
    }

    /// The same maneuver with the two paths, and the length of the vertical
    /// one.
    pub open spec fn with_path(self, dlat: DubinsManeuver2D, dlon: DubinsManeuver2D) -> Maneuver3D {
        Maneuver3D { path: seq![dlat, dlon], length: dlon.maneuver.length, ..self }
    }

    /// Whether the maneuver can be sampled: it has its two paths and a finite
    /// length.
    pub open spec fn samplable(self) -> bool {
        self.path.len() == 2 && self.length@ is Finite
    }

    /// What a bound gives once both planes are solved: the two paths, or no
    /// path and the `fallback` length where the vertical plane has no path.
    pub open spec fn bounded(
        self,
        dlat: DubinsManeuver2D,
        dlon: DubinsManeuver2D,
        fallback: Scalar,
    ) -> Maneuver3D {
        if dlon.maneuver.case.a == SegmentType::NONE {
            self.without_path(fallback)
        } else {
            self.with_path(dlat, dlon)
        }
    }

    /// Whether the maneuver is without a path, or has its two paths between
    /// its own poses and the length of the vertical one.
    pub open spec fn shaped(self) -> bool {
        self.path.len() == 0 || (wired(self.qi, self.qf, self.path) && self.length
            == self.path[1].maneuver.length)
    }
}

/// A pose of a plane: two coordinates and a heading.
pub type Pose = (Scalar, Scalar, Scalar);

/// The poses of the horizontal plane: position on the ground and yaw.
pub open spec fn spec_lateral_poses(qi: State, qf: State) -> (Pose, Pose) {
    ((qi.x, qi.y, qi.yaw), (qf.x, qf.y, qf.yaw))
}

/// The poses of the horizontal plane: position on the ground and yaw.
#[verifier::when_used_as_spec(spec_lateral_poses)]
pub fn lateral_poses(qi: State, qf: State) -> (r: (Pose, Pose))
    ensures
        r == spec_lateral_poses(qi, qf),
{
    ((qi.x, qi.y, qi.yaw), (qf.x, qf.y, qf.yaw))
}

/// The poses of the vertical plane: ground covered, height and pitch. The
/// start has covered no ground, and the goal has covered the length of the
/// horizontal path.
pub open spec fn spec_longitudinal_poses(qi: State, qf: State, dlat: &DubinsManeuver2D) -> (
    Pose,
    Pose,
) {
    ((Scalar::spec_zero(), qi.z, qi.pitch), (dlat.maneuver.length, qf.z, qf.pitch))
}

/// The poses of the vertical plane: ground covered, height and pitch.
#[verifier::when_used_as_spec(spec_longitudinal_poses)]
pub fn longitudinal_poses(qi: State, qf: State, dlat: &DubinsManeuver2D) -> (r: (Pose, Pose))
    ensures
        r == spec_longitudinal_poses(qi, qf, dlat),
{
    ((Scalar::zero(), qi.z, qi.pitch), (dlat.maneuver.length, qf.z, qf.pitch))
}

/// Whether two paths are the two planes of a maneuver between two poses: the
/// first joins the poses of the horizontal plane, and the second runs from
/// the start height and pitch to the goal height and pitch over the length of
/// the first.
pub open spec fn wired(qi: State, qf: State, path: Seq<DubinsManeuver2D>) -> bool {
    &&& path.len() == 2
    &&& (path[0].qi, path[0].qf) == spec_lateral_poses(qi, qf)
    &&& (path[1].qi, path[1].qf) == spec_longitudinal_poses(qi, qf, &path[0])
}

/// The horizontal path between two poses at a radius: the shortest of the
/// six families of the evaluation.
pub open spec fn spec_solve_lateral(
    qi: State,
    qf: State,
    radius: Scalar,
    evaluation: &PlanarEvaluation,
) -> DubinsManeuver2D {
    DubinsManeuver2D::spec_new(
        spec_lateral_poses(qi, qf).0,
        spec_lateral_poses(qi, qf).1,
        radius,
        Scalar::spec_neg_infinity(),
        false,
        evaluation,
    )
}

/// The horizontal path between two poses at a radius.
#[verifier::when_used_as_spec(spec_solve_lateral)]
pub fn solve_lateral(qi: State, qf: State, radius: Scalar, evaluation: &PlanarEvaluation) -> (r:
    DubinsManeuver2D)
    ensures
        r == spec_solve_lateral(qi, qf, radius, evaluation),
{
    let poses = lateral_poses(qi, qf);
    DubinsManeuver2D::new(poses.0, poses.1, radius, Scalar::neg_infinity(), false, evaluation)
}

/// The vertical path over a horizontal path at a radius, and the pitch at
/// which its first turn ends: what the vertical plane chooses between the
/// poses of [`longitudinal_poses`].
pub open spec fn spec_solve_longitudinal(
    qi: State,
    qf: State,
    dlat: &DubinsManeuver2D,
    radius: Scalar,
    pitchlims: (Scalar, Scalar),
    evaluation: &VerticalEvaluation,
) -> (DubinsManeuver2D, Scalar) {
    (
        evaluation.solution(
            spec_longitudinal_poses(qi, qf, dlat).0,
            spec_longitudinal_poses(qi, qf, dlat).1,
            radius,
            pitchlims,
        ),
        evaluation.apex(
            spec_longitudinal_poses(qi, qf, dlat).0,
            spec_longitudinal_poses(qi, qf, dlat).1,
            radius,
            pitchlims,
        ),
    )
}

/// The vertical path over a horizontal path at a radius, and the pitch at
/// which its first turn ends.
#[verifier::when_used_as_spec(spec_solve_longitudinal)]
pub fn solve_longitudinal(
    qi: State,
    qf: State,
    dlat: &DubinsManeuver2D,
    radius: Scalar,
    pitchlims: (Scalar, Scalar),
    evaluation: &VerticalEvaluation,
) -> (r: (DubinsManeuver2D, Scalar))
    ensures
        r == spec_solve_longitudinal(qi, qf, dlat, radius, pitchlims, evaluation),
        r.0.maneuver.case.a == SegmentType::NONE ==> r.0.maneuver == DubinsStruct::spec_unset(),
        r.0.maneuver.case.a != SegmentType::NONE ==> {
            &&& number_lt(number_abs(r.0.maneuver.t@), Scalar::spec_pi()@)
            &&& number_lt(number_abs(r.0.maneuver.q@), Scalar::spec_pi()@)
            &&& r.0.maneuver.case.b == SegmentType::STRAIGHT
            &&& number_le(pitchlims.0@, r.1@)
            &&& number_le(r.1@, pitchlims.1@)
        },
{
    let poses = longitudinal_poses(qi, qf, dlat);
    get_vertical_and_apex(poses.0, poses.1, radius, pitchlims, evaluation)
}

/// What the caller has computed for a bound: the radius at which both planes
/// are solved, and the families of each plane at that radius. The vertical
/// plane is evaluated over the length of the horizontal path, which
/// [`solve_lateral`] gives.
#[derive(Copy, Clone)]
pub struct BoundEvaluation {
    pub radius: Scalar,
    pub lateral: PlanarEvaluation,
    pub vertical: VerticalEvaluation,
}

impl BoundEvaluation {
    /// The horizontal path of the bound.
    pub open spec fn dlat(self, qi: State, qf: State) -> DubinsManeuver2D {
        spec_solve_lateral(qi, qf, self.radius, &self.lateral)
    }

    /// The vertical path of the bound.
    pub open spec fn dlon(
        self,
        qi: State,
        qf: State,
        pitchlims: (Scalar, Scalar),
    ) -> DubinsManeuver2D {
        spec_solve_longitudinal(
            qi,
            qf,
            &self.dlat(qi, qf),
            self.radius,
            pitchlims,
            &self.vertical,
        ).0
    }
}

/// What the caller has computed of one trial of a horizontal radius.
#[derive(Copy, Clone)]
pub struct TrialEvaluation {
    /// The horizontal radius: the smallest turning radius times the factor
    /// that is tried.
    pub horizontal_radius: Scalar,
    /// The families of the horizontal plane at that radius.
    pub lateral: PlanarEvaluation,
    /// The curvature that the horizontal radius leaves for the vertical
    /// plane.
    pub vertical_curvature: Scalar,
    /// The radius of that curvature.
    pub vertical_radius: Scalar,
    /// The families of the vertical plane at that radius, over the length of
    /// the horizontal path, which [`solve_lateral`] gives.
    pub vertical: VerticalEvaluation,
}

/// A maneuver in space.
pub struct DubinsManeuver3D {
    qi: State,
    qf: State,
    rhomin: Scalar,
    pitchlims: (Scalar, Scalar),
    path: Vec<DubinsManeuver2D>,
    length: Scalar,
}

impl View for DubinsManeuver3D {
    type V = Maneuver3D;

    closed spec fn view(&self) -> Maneuver3D {
        Maneuver3D {
            qi: self.qi,
            qf: self.qf,
            rhomin: self.rhomin,
            pitchlims: self.pitchlims,
            path: self.path@,
            length: self.length,
        }
    }
}

/// The steepest pitch that the limits allow, up or down: the greater of the
/// upper limit and the opposite of the lower one.
pub open spec fn spec_steepest_pitch(pitchlims: (Scalar, Scalar)) -> Scalar {
    pitchlims.0.spec_neg().max_spec(pitchlims.1)
}

/// The steepest pitch that the limits allow, up or down.
#[verifier::when_used_as_spec(spec_steepest_pitch)]
pub fn steepest_pitch(pitchlims: (Scalar, Scalar)) -> (r: Scalar)
    ensures
        r == spec_steepest_pitch(pitchlims),
{
    pitchlims.0.neg().max(pitchlims.1)
}

/// Whether two poses are too close on the ground for the upper bound: their
/// distance is less than four times the safe radius.
pub open spec fn too_close(separation: Scalar, safe_radius: Scalar) -> bool {
    number_lt(separation@, number_doubled(number_doubled(safe_radius@)))
}

/// The fractions at which `number_of_samples` samples are taken: the
/// multiples of one over that number, from zero up to but without one.
pub open spec fn sampling_fractions(number_of_samples: i32) -> Seq<Fraction> {
    Seq::new(
        if number_of_samples > 0 {
            number_of_samples as nat
        } else {
            0
        },
        |i: int| Fraction { numerator: i as i32, denominator: number_of_samples },
    )
}

impl DubinsManeuver3D {
    /// A path is either missing or complete. A complete path lies between the
    /// poses of the maneuver and gives the maneuver its length.
    #[verifier::type_invariant]
    spec fn shaped(self) -> bool {
        self@.shaped()
    }

    /// A maneuver between two poses before any construction: it has no path,
    /// and its length is minus one.
    pub fn new(qi: State, qf: State, rhomin: Scalar, pitchlims: (Scalar, Scalar)) -> (r:
        DubinsManeuver3D)
        ensures
            r@ == Maneuver3D::unattempted(qi, qf, rhomin, pitchlims),
    {
        DubinsManeuver3D {
            qi,
            qf,
            rhomin,
            pitchlims,
            path: Vec::new(),
            length: Scalar::minus_one(),
        }
    }

    /// The lower bound, from the two planes solved at the radius of the
    /// evaluation, which is to be the radius of the steepest spiral: the
    /// length of the vertical path, or zero where the vertical plane has no
    /// path.
    pub fn get_lower_bound(
        qi: State,
        qf: State,
        rhomin: Scalar,
        pitchlims: (Scalar, Scalar),
        evaluation: &BoundEvaluation,
    ) -> (r: DubinsManeuver3D)
        ensures
            r@ == Maneuver3D::unattempted(qi, qf, rhomin, pitchlims).bounded(
                evaluation.dlat(qi, qf),
                evaluation.dlon(qi, qf, pitchlims),
                Scalar::spec_zero(),
            ),
            r@.shaped(),
            r@.path.len() == 2 ==> r@.path[0].rhomin == evaluation.radius && r@.path[1].rhomin
                == evaluation.radius,
    {
        let dlat = solve_lateral(qi, qf, evaluation.radius, &evaluation.lateral);
        let dlon = solve_longitudinal(
            qi,
            qf,
            &dlat,
            evaluation.radius,
            pitchlims,
            &evaluation.vertical,
        ).0;
        if dlon.maneuver.case.a == SegmentType::NONE {
            let mut maneuver = DubinsManeuver3D::new(qi, qf, rhomin, pitchlims);
            maneuver.length = Scalar::zero();
            return maneuver;
        }
        let mut path: Vec<DubinsManeuver2D> = Vec::new();
        path.push(dlat);
        path.push(dlon);
        assert(path@ =~= seq![dlat, dlon]);
        DubinsManeuver3D { qi, qf, rhomin, pitchlims, path, length: dlon.maneuver.length }
    }

    /// The upper bound, from the two planes solved at the radius of the
    /// evaluation, which is to be a radius that is safe for every pitch:
    /// infinite where the poses are closer on the ground than four times
    /// that radius, or where the vertical plane has no path; else the length
    /// of the vertical path.
    pub fn get_upper_bound(
        qi: State,
        qf: State,
        rhomin: Scalar,
        pitchlims: (Scalar, Scalar),
        separation: Scalar,
        evaluation: &BoundEvaluation,
    ) -> (r: DubinsManeuver3D)
        ensures
            r@ == if too_close(separation, evaluation.radius) {
                Maneuver3D::unattempted(qi, qf, rhomin, pitchlims).without_path(
                    Scalar::spec_infinity(),
                )
            } else {
                Maneuver3D::unattempted(qi, qf, rhomin, pitchlims).bounded(
                    evaluation.dlat(qi, qf),
                    evaluation.dlon(qi, qf, pitchlims),
                    Scalar::spec_infinity(),
                )
            },
            too_close(separation, evaluation.radius) ==> r@.length == Scalar::spec_infinity()
                && r@.path.len() == 0,
            r@.shaped(),
            r@.path.len() == 2 ==> r@.path[0].rhomin == evaluation.radius && r@.path[1].rhomin
                == evaluation.radius,
    {
        let clearance = evaluation.radius.doubled().doubled();
        let dlat = solve_lateral(qi, qf, evaluation.radius, &evaluation.lateral);
        let dlon = solve_longitudinal(
            qi,
            qf,
            &dlat,
            evaluation.radius,
            pitchlims,
            &evaluation.vertical,
        ).0;
        if separation.lt(clearance) || dlon.maneuver.case.a == SegmentType::NONE {
            let mut maneuver = DubinsManeuver3D::new(qi, qf, rhomin, pitchlims);
            maneuver.length = Scalar::infinity();
            return maneuver;
        }
        let mut path: Vec<DubinsManeuver2D> = Vec::new();
        path.push(dlat);
        path.push(dlon);
        assert(path@ =~= seq![dlat, dlon]);
        DubinsManeuver3D { qi, qf, rhomin, pitchlims, path, length: dlon.maneuver.length }
    }

    /// The start pose.
    pub fn qi(&self) -> (r: State)
        ensures
            r == self@.qi,
    {
        self.qi
    }

    /// The goal pose.
    pub fn qf(&self) -> (r: State)
        ensures
            r == self@.qf,
    {
        self.qf
    }

    /// The smallest turning radius.
    pub fn rhomin(&self) -> (r: Scalar)
        ensures
            r == self@.rhomin,
    {
        self.rhomin
    }

    /// The lower and the upper pitch limit.
    pub fn pitchlims(&self) -> (r: (Scalar, Scalar))
        ensures
            r == self@.pitchlims,
    {
        self.pitchlims
    }

    /// The length: minus one before any construction, infinite where no
    /// maneuver exists, zero for a lower bound without a path, else the length
    /// of the vertical path.
    pub fn length(&self) -> (r: Scalar)
        ensures
            r == self@.length,
            self@.path.len() == 2 ==> r == self@.path[1].maneuver.length,
    {
        proof {
            use_type_invariant(self);
        }
        self.length
    }

    /// The horizontal path, where the maneuver has one: it joins the poses
    /// of the maneuver on the ground.
    pub fn lateral(&self) -> (r: Option<DubinsManeuver2D>)
        ensures
            self@.shaped(),
            r == if self@.path.len() == 2 {
                Some(self@.path[0])
            } else {
                None
            },
            r matches Some(dlat) ==> (dlat.qi, dlat.qf) == spec_lateral_poses(self@.qi, self@.qf),
    {
        proof {
            use_type_invariant(self);
        }
        if self.path.len() == 2 {
            Some(self.path[0])
        } else {
            None
        }
    }

    /// The vertical path, where the maneuver has one: it runs from the start
    /// height and pitch to the goal height and pitch, over the length of the
    /// horizontal path.
    pub fn longitudinal(&self) -> (r: Option<DubinsManeuver2D>)
        ensures
            self@.shaped(),
            r == if self@.path.len() == 2 {
                Some(self@.path[1])
            } else {
                None
            },
            r matches Some(dlon) ==> (dlon.qi, dlon.qf) == spec_longitudinal_poses(
                self@.qi,
                self@.qf,
                &self@.path[0],
            ) && dlon.maneuver.length == self@.length,
    {
        proof {
            use_type_invariant(self);
        }
        if self.path.len() == 2 {
            Some(self.path[1])
        } else {
            None
        }
    }

    /// The places of `number_of_samples` samples along the maneuver, evenly
    /// spaced from its start: sample `i` lies at `i` over `number_of_samples`
    /// of the length. A maneuver without its two paths, or without a finite
    /// length, cannot be sampled.
    pub fn compute_sampling(&self, number_of_samples: i32) -> (r: Result<Vec<Fraction>, Error>)
        ensures
            match r {
                Ok(fractions) => self@.samplable() && fractions@ == sampling_fractions(
                    number_of_samples,
                ),
                Err(e) => !self@.samplable() && e == Error::InfeasibleManeuver,
            },
    {
        if self.path.len() != 2 || !self.length.is_finite() {
            return Err(Error::InfeasibleManeuver);
        }
        let mut points: Vec<Fraction> = Vec::new();
        let mut sample: i32 = 0;
        while sample < number_of_samples
            invariant
                0 <= sample,
                sample <= number_of_samples || number_of_samples <= 0,
                number_of_samples <= 0 ==> sample == 0,
                points@.len() == sample,
                forall|i: int|
                    0 <= i < sample ==> points@[i] == (Fraction {
                        numerator: i as i32,
                        denominator: number_of_samples,
                    }),
            decreases number_of_samples - sample,
        {
            points.push(Fraction { numerator: sample, denominator: number_of_samples });
            sample = sample + 1;
        }
        assert(points@ =~= sampling_fractions(number_of_samples));
        Ok(points)
    }
}

/// The samples cover the maneuver from its start, in order and without
/// reaching its end: the first fraction is zero, each fraction is below one,
/// and a later sample lies at a larger fraction.
pub proof fn lemma_sampling_is_monotonic(number_of_samples: i32, i: int, j: int)
    requires
        0 <= i <= j < sampling_fractions(number_of_samples).len(),
    ensures
        sampling_fractions(number_of_samples).len() == number_of_samples,
        sampling_fractions(number_of_samples)[0].numerator == 0,
        sampling_fractions(number_of_samples)[i].denominator == number_of_samples,
        sampling_fractions(number_of_samples)[j].denominator == number_of_samples,
        0 <= sampling_fractions(number_of_samples)[i].numerator
            <= sampling_fractions(number_of_samples)[j].numerator < number_of_samples,
        i < j ==> sampling_fractions(number_of_samples)[i].numerator < sampling_fractions(
            number_of_samples,
        )[j].numerator,
{
}

/// Whether two solved planes make a maneuver: the horizontal radius exceeds
/// the smallest turning radius and leaves the vertical plane a curvature of
/// at least one hundred-thousandth, the vertical path is not right, left,
/// right, and its first turn ends within the pitch limit that it approaches,
/// the lower one for a first turn to the right, the upper one otherwise.
pub open spec fn spec_composes(
    rhomin: Scalar,
    pitchlims: (Scalar, Scalar),
    horizontal_radius: Scalar,
    vertical_curvature: Scalar,
    dlon: &DubinsManeuver2D,
    apex: Scalar,
) -> bool {
    &&& number_lt(rhomin@, horizontal_radius@)
    &&& number_le(Scalar::spec_hundred_thousandth()@, vertical_curvature@)
    &&& dlon.maneuver.case != ManeuverCase::rlr()
    &&& if dlon.maneuver.case.a == SegmentType::RIGHT {
        !number_lt(apex@, pitchlims.0@)
    } else {
        !number_lt(pitchlims.1@, apex@)
    }
}

/// Whether two solved planes make a maneuver. `dlon` is the vertical path and
/// `apex` the pitch at which its first turn ends.
#[verifier::when_used_as_spec(spec_composes)]
pub fn composes(
    rhomin: Scalar,
    pitchlims: (Scalar, Scalar),
    horizontal_radius: Scalar,
    vertical_curvature: Scalar,
    dlon: &DubinsManeuver2D,
    apex: Scalar,
) -> (r: bool)
    ensures
        r == spec_composes(rhomin, pitchlims, horizontal_radius, vertical_curvature, dlon, apex),
{
    if !rhomin.lt(horizontal_radius) {
        return false;
    }
    if !vertical_curvature.ge(Scalar::hundred_thousandth()) {
        return false;
    }
    let case = dlon.maneuver.case;
    if case.a == SegmentType::RIGHT && case.b == SegmentType::LEFT && case.c == SegmentType::RIGHT {
        return false;
    }
    if case.a == SegmentType::RIGHT {
        !apex.lt(pitchlims.0)
    } else {
        !apex.gt(pitchlims.1)
    }
}

impl TrialEvaluation {
    /// The horizontal path of the trial.
    pub open spec fn dlat(self, qi: State, qf: State) -> DubinsManeuver2D {
        spec_solve_lateral(qi, qf, self.horizontal_radius, &self.lateral)
    }

    /// The vertical path of the trial, and the pitch at which its first
    /// turn ends.
    pub open spec fn dlon(self, qi: State, qf: State, pitchlims: (Scalar, Scalar)) -> (
        DubinsManeuver2D,
        Scalar,
    ) {
        spec_solve_longitudinal(
            qi,
            qf,
            &self.dlat(qi, qf),
            self.vertical_radius,
            pitchlims,
            &self.vertical,
        )
    }

    /// The outcome of the trial for a maneuver: the two paths where they make
    /// a maneuver, else nothing.
    pub open spec fn paths(self, maneuver: Maneuver3D) -> Seq<DubinsManeuver2D> {
        let dlat = self.dlat(maneuver.qi, maneuver.qf);
        let solved = self.dlon(maneuver.qi, maneuver.qf, maneuver.pitchlims);
        if spec_composes(
            maneuver.rhomin,
            maneuver.pitchlims,
            self.horizontal_radius,
            self.vertical_curvature,
            &solved.0,
            solved.1,
        ) {
            seq![dlat, solved.0]
        } else {
            Seq::empty()
        }
    }
}

/// A trial that gives a maneuver gives it between the poses of the maneuver:
/// its horizontal path joins them on the ground at the horizontal radius,
/// which exceeds the smallest turning radius, and its vertical path is what
/// the vertical plane chooses over the length of the horizontal one, a path
/// with a straight segment whose first turn ends within the pitch limits, or
/// the unset path.
pub proof fn lemma_trial_is_wired(trial: TrialEvaluation, maneuver: Maneuver3D)
    ensures
        trial.paths(maneuver).len() == 0 || trial.paths(maneuver).len() == 2,
        trial.paths(maneuver).len() == 2 ==> {
            &&& wired(maneuver.qi, maneuver.qf, trial.paths(maneuver))
            &&& trial.paths(maneuver)[0] == trial.dlat(maneuver.qi, maneuver.qf)
            &&& trial.paths(maneuver)[1] == trial.dlon(
                maneuver.qi,
                maneuver.qf,
                maneuver.pitchlims,
            ).0
            &&& trial.paths(maneuver)[0].rhomin == trial.horizontal_radius
            &&& trial.paths(maneuver)[1].rhomin == trial.vertical_radius
            &&& number_lt(maneuver.rhomin@, trial.paths(maneuver)[0].rhomin@)
            &&& number_le(Scalar::spec_hundred_thousandth()@, trial.vertical_curvature@)
        },
{
}

/// The outcome of one trial of a horizontal radius: the horizontal path
/// between the poses of the maneuver at that radius, and the vertical path
/// that is chosen over its length at the vertical radius, where the two make
/// a maneuver; else nothing.
pub fn try_to_construct(
    maneuver: &DubinsManeuver3D,
    trial: &TrialEvaluation,
) -> (r: Vec<DubinsManeuver2D>)
    ensures
        r@ == trial.paths(maneuver@),
        r@.len() == 0 || r@.len() == 2,
        r@.len() == 2 ==> {
            &&& wired(maneuver@.qi, maneuver@.qf, r@)
            &&& r@[0].rhomin == trial.horizontal_radius
            &&& r@[1].rhomin == trial.vertical_radius
            &&& number_lt(maneuver@.rhomin@, r@[0].rhomin@)
            &&& r@[1].maneuver.case.a != SegmentType::NONE ==> {
                &&& r@[1].maneuver.case.b == SegmentType::STRAIGHT
                &&& number_lt(number_abs(r@[1].maneuver.t@), Scalar::spec_pi()@)
                &&& number_lt(number_abs(r@[1].maneuver.q@), Scalar::spec_pi()@)
            }
        },
{
    let mut path: Vec<DubinsManeuver2D> = Vec::new();
    let dlat = solve_lateral(maneuver.qi, maneuver.qf, trial.horizontal_radius, &trial.lateral);
    let solved = solve_longitudinal(
        maneuver.qi,
        maneuver.qf,
        &dlat,
        trial.vertical_radius,
        maneuver.pitchlims,
        &trial.vertical,
    );
    if composes(
        maneuver.rhomin,
        maneuver.pitchlims,
        trial.horizontal_radius,
        trial.vertical_curvature,
        &solved.0,
        solved.1,
    ) {
        path.push(dlat);
        path.push(solved.0);
        assert(path@ =~= seq![dlat, solved.0]);
    } else {
        assert(path@ =~= Seq::empty());
    }
    path
}

/// The stage of a search for the horizontal radius.
#[derive(Copy, Clone, PartialEq, Eq, Structural)]
pub enum SearchPhase {
    /// No radius has given a maneuver yet: the radius is doubled.
    Doubling,
    /// A radius has given a maneuver: the radius is moved by steps that grow
    /// while they shorten the maneuver, and turn round and shrink otherwise.
    Refining,
    /// The search has ended.
    Finished,
}

/// How often the radius is doubled at most. One more doubling would take the
/// factor out of the finite range.
pub const MAX_DOUBLINGS: u32 = 1023;

/// How many steps the refinement takes at most.
pub const MAX_REFINEMENTS: u32 = 1000;

/// A search, as contracts see it.
pub struct Search {
    /// The maneuver that is sought, before any construction.
    pub target: Maneuver3D,
    pub phase: SearchPhase,
    /// The horizontal radius over the smallest turning radius.
    pub factor: Scalar,
    /// The step by which the factor moves next.
    pub step: Scalar,
    /// Empty, or the two paths of the best trial so far.
    pub best: Seq<DubinsManeuver2D>,
    pub doublings_left: nat,
    pub refinements_left: nat,
}

impl Search {
    /// The search before its first trial: the factor is one and the step one
    /// tenth.
    pub open spec fn start(
        qi: State,
        qf: State,
        rhomin: Scalar,
        pitchlims: (Scalar, Scalar),
    ) -> Search {
        Search {
            target: Maneuver3D::unattempted(qi, qf, rhomin, pitchlims),
            phase: SearchPhase::Doubling,
            factor: Scalar::spec_one(),
            step: Scalar::spec_tenth(),
            best: Seq::empty(),
            doublings_left: MAX_DOUBLINGS as nat,
            refinements_left: MAX_REFINEMENTS as nat,
        }
    }

    /// What holds of every search: the budgets are within their caps, a
    /// search has a best trial exactly when it has left the doubling, a
    /// refinement has at least one step left, and the best trial lies
    /// between the poses of the target, with a horizontal radius that
    /// exceeds the smallest turning radius.
    pub open spec fn wf(self) -> bool {
        &&& self.target.path.len() == 0
        &&& self.doublings_left <= MAX_DOUBLINGS
        &&& self.refinements_left <= MAX_REFINEMENTS
        &&& self.best.len() == 0 || self.best.len() == 2
        &&& self.phase == SearchPhase::Doubling ==> self.best.len() == 0
        &&& self.phase == SearchPhase::Refining ==> self.best.len() == 2 && self.refinements_left
            >= 1
        &&& self.best.len() == 2 ==> wired(self.target.qi, self.target.qf, self.best) && number_lt(
            self.target.rhomin@,
            self.best[0].rhomin@,
        )
    }

    /// How many trials the search can still ask for, at most.
    pub open spec fn remaining(self) -> nat {
        match self.phase {
            SearchPhase::Doubling => self.doublings_left + 1 + MAX_REFINEMENTS as nat,
            SearchPhase::Refining => self.refinements_left,
            SearchPhase::Finished => 0,
        }
    }

    /// The factor to try next. While doubling it is the factor itself. While
    /// refining it is `shifted`, the factor moved by the step, but one at
    /// least.
    pub open spec fn proposal(self, shifted: Scalar) -> Scalar {
        if self.phase == SearchPhase::Refining {
            shifted.max_spec(Scalar::spec_one())
        } else {
            self.factor
        }
    }

    /// Whether a trial gives a maneuver that is shorter than the best so far.
    pub open spec fn improves(self, paths: Seq<DubinsManeuver2D>) -> bool {
        paths.len() == 2 && number_lt(
            paths[1].maneuver.length@,
            self.best[1].maneuver.length@,
        )
    }

    /// Whether a step is too small to go on with: it is less than ten to the
    /// minus ten in size.
    pub open spec fn negligible(step: Scalar) -> bool {
        number_lt(number_abs(step@), Scalar::spec_ten_billionth()@)
    }

    /// The search after one trial. The factor tried is the proposal for
    /// `shifted`, the factor plus the step; `trial` is what the caller has
    /// computed at that factor, and `reversed` is the step times minus one
    /// tenth.
    ///
    /// While doubling, a trial with a maneuver starts the refinement from it;
    /// one without doubles the factor, or ends the search when the doublings
    /// are used up. While refining, a trial that improves on the best moves
    /// the factor to the one tried and doubles the step; any other turns the
    /// step round and shrinks it. The refinement ends when the step is
    /// negligible or the steps are used up.
    pub open spec fn next(
        self,
        shifted: Scalar,
        trial: TrialEvaluation,
        reversed: Scalar,
    ) -> Search {
        let paths = trial.paths(self.target);
        match self.phase {
            SearchPhase::Doubling => if paths.len() == 2 {
                Search {
                    phase: SearchPhase::Refining,
                    best: paths,
                    refinements_left: MAX_REFINEMENTS as nat,
                    ..self
                }
            } else if self.doublings_left > 0 {
                Search {
                    factor: self.factor.spec_doubled(),
                    doublings_left: (self.doublings_left - 1) as nat,
                    ..self
                }
            } else {
                Search { phase: SearchPhase::Finished, ..self }
            },
            SearchPhase::Refining => {
                let accepted = self.improves(paths);
                let step = if accepted {
                    self.step.spec_doubled()
                } else {
                    reversed
                };
                let left = (self.refinements_left - 1) as nat;
                Search {
                    phase: if Search::negligible(step) || left == 0 {
                        SearchPhase::Finished
                    } else {
                        SearchPhase::Refining
                    },
                    factor: if accepted {
                        self.proposal(shifted)
                    } else {
                        self.factor
                    },
                    step,
                    best: if accepted {
                        paths
                    } else {
                        self.best
                    },
                    refinements_left: left,
                    ..self
                }
            },
            SearchPhase::Finished => self,
        }
    }

    /// The maneuver that the search has found so far: the best trial, or the
    /// maneuver before any construction where no trial gave one.
    pub open spec fn outcome(self) -> Maneuver3D {
        if self.best.len() == 2 {
            self.target.with_path(self.best[0], self.best[1])
        } else {
            self.target
        }
    }

    /// The search after a run of trials, taken in one after another.
    pub open spec fn after(self, trials: Seq<Trial>) -> Search
        decreases trials.len(),
    {
        if trials.len() == 0 {
            self
        } else {
            self.after(trials.drop_last()).next(
                trials.last().shifted,
                trials.last().evaluation,
                trials.last().reversed,
            )
        }
    }
}

/// What the caller reports of one trial: the factor plus the step, what it
/// has computed at the factor proposed for that sum, and the step times
/// minus one tenth.
pub struct Trial {
    pub shifted: Scalar,
    pub evaluation: TrialEvaluation,
    pub reversed: Scalar,
}

/// Every trial brings the search nearer to its end: a search that is well
/// formed stays so, and unless it has ended, the number of trials that it can
/// still ask for goes down. A search therefore ends after at most as many
/// trials as [`Search::remaining`] says at its start.
pub proof fn lemma_search_progresses(
    search: Search,
    shifted: Scalar,
    trial: TrialEvaluation,
    reversed: Scalar,
)
    requires
        search.wf(),
    ensures
        search.next(shifted, trial, reversed).wf(),
        search.phase != SearchPhase::Finished ==> search.next(shifted, trial, reversed).remaining()
            < search.remaining(),
        search.next(shifted, trial, reversed).remaining() == 0 <==> search.next(
            shifted,
            trial,
            reversed,
        ).phase == SearchPhase::Finished,
        search.next(shifted, trial, reversed).target == search.target,
{
    lemma_trial_is_wired(trial, search.target);
}

/// Every search ends: whatever the trials give, a search has finished once it
/// has taken in as many of them as [`Search::remaining`] said at its start,
/// and from the very start that is 2024 at most.
pub proof fn lemma_search_terminates(search: Search, trials: Seq<Trial>)
    requires
        search.wf(),
    ensures
        search.after(trials).wf(),
        search.after(trials).phase == SearchPhase::Finished || search.after(trials).remaining()
            + trials.len() <= search.remaining(),
        trials.len() >= search.remaining() ==> search.after(trials).phase == SearchPhase::Finished,
    decreases trials.len(),
{
    if trials.len() > 0 {
        let before = search.after(trials.drop_last());
        lemma_search_terminates(search, trials.drop_last());
        lemma_search_progresses(
            before,
            trials.last().shifted,
            trials.last().evaluation,
            trials.last().reversed,
        );
    }
}

/// While no trial gives a maneuver, the factors tried are the powers of two:
/// after `trials.len()` such trials the search is still doubling, and its
/// factor is one doubled that many times.
pub proof fn lemma_doubling_tries_powers_of_two(
    qi: State,
    qf: State,
    rhomin: Scalar,
    pitchlims: (Scalar, Scalar),
    trials: Seq<Trial>,
)
    requires
        trials.len() <= MAX_DOUBLINGS,
        forall|i: int|
            0 <= i < trials.len() ==> (#[trigger] trials[i]).evaluation.paths(
                Maneuver3D::unattempted(qi, qf, rhomin, pitchlims),
            ).len() != 2,
    ensures
        Search::start(qi, qf, rhomin, pitchlims).after(trials).phase == SearchPhase::Doubling,
        Search::start(qi, qf, rhomin, pitchlims).after(trials).factor == power_of_two(
            trials.len(),
        ),
        Search::start(qi, qf, rhomin, pitchlims).after(trials).doublings_left == MAX_DOUBLINGS
            - trials.len(),
        Search::start(qi, qf, rhomin, pitchlims).after(trials).best.len() == 0,
        Search::start(qi, qf, rhomin, pitchlims).after(trials).target == Maneuver3D::unattempted(
            qi,
            qf,
            rhomin,
            pitchlims,
        ),
        Search::start(qi, qf, rhomin, pitchlims).after(trials).factor@ == Number::Finite(
            pow2(1074 + trials.len()) as int,
        ),
    decreases trials.len(),
{
    lemma_powers_of_two(trials.len());
    if trials.len() > 0 {
        let earlier = trials.drop_last();
        assert forall|i: int| 0 <= i < earlier.len() implies (#[trigger]
            earlier[i]).evaluation.paths(
            Maneuver3D::unattempted(qi, qf, rhomin, pitchlims),
        ).len() != 2 by {
            assert(earlier[i] == trials[i]);
        }
        lemma_doubling_tries_powers_of_two(qi, qf, rhomin, pitchlims, earlier);
        assert(trials.last() == trials[trials.len() - 1]);
    }
}

/// A search starts well formed, and can ask for 2024 trials at most.
pub proof fn lemma_search_is_bounded(
    qi: State,
    qf: State,
    rhomin: Scalar,
    pitchlims: (Scalar, Scalar),
)
    ensures
        Search::start(qi, qf, rhomin, pitchlims).wf(),
        Search::start(qi, qf, rhomin, pitchlims).remaining() == MAX_DOUBLINGS + 1
            + MAX_REFINEMENTS,
{
}

/// A refinement never lengthens the maneuver: after a trial the best is what
/// it was, or a maneuver that is strictly shorter.
pub proof fn lemma_refinement_never_lengthens(
    search: Search,
    shifted: Scalar,
    trial: TrialEvaluation,
    reversed: Scalar,
)
    requires
        search.wf(),
        search.phase == SearchPhase::Refining,
    ensures
        search.next(shifted, trial, reversed).best.len() == 2,
        search.next(shifted, trial, reversed).best == search.best || number_lt(
            search.next(shifted, trial, reversed).best[1].maneuver.length@,
            search.best[1].maneuver.length@,
        ),
{
}

/// The factor of a search moves only to a factor that was proposed: after a
/// trial it is what it was, or its double while the search doubles, or the
/// proposal for the sum of the trial while it refines.
pub proof fn lemma_factor_is_proposed(
    search: Search,
    shifted: Scalar,
    trial: TrialEvaluation,
    reversed: Scalar,
)
    ensures
        search.next(shifted, trial, reversed).factor == search.factor || (search.phase
            == SearchPhase::Doubling && search.next(shifted, trial, reversed).factor
            == search.factor.spec_doubled()) || (search.phase == SearchPhase::Refining
            && search.next(shifted, trial, reversed).factor == search.proposal(shifted)),
{
}

/// While refining, no factor below one is tried, whatever the step.
pub proof fn lemma_proposal_is_at_least_one(search: Search, shifted: Scalar)
    requires
        search.phase == SearchPhase::Refining,
    ensures
        number_le(Scalar::spec_one()@, search.proposal(shifted)@),
{
    lemma_named_values_are_ordered();
}

/// A search that has found a maneuver has found it between the poses of its
/// target: the outcome is shaped, its horizontal path has a radius that
/// exceeds the smallest turning radius, and its vertical path ends where the
/// horizontal path is used up.
pub proof fn lemma_outcome_is_wired(search: Search)
    requires
        search.wf(),
    ensures
        search.outcome().shaped(),
        search.outcome().path.len() == 2 ==> {
            &&& wired(search.target.qi, search.target.qf, search.outcome().path)
            &&& number_lt(search.target.rhomin@, search.outcome().path[0].rhomin@)
            &&& search.outcome().path[1].qf.0 == search.outcome().path[0].maneuver.length
            &&& search.outcome().length == search.outcome().path[1].maneuver.length
        },
{
    if search.best.len() == 2 {
        assert(search.outcome().path =~= search.best);
    }
}

/// The search for the horizontal radius of a maneuver in space.
///
/// The caller runs the trials: it asks [`RadiusSearch::proposal`] for the
/// factor to try, evaluates the formulas of the two planes at the smallest
/// turning radius times that factor, hands them to
/// [`RadiusSearch::advance`], and goes on until the search has finished.
pub struct RadiusSearch {
    qi: State,
    qf: State,
    rhomin: Scalar,
    pitchlims: (Scalar, Scalar),
    phase: SearchPhase,
    factor: Scalar,
    step: Scalar,
    best: Vec<DubinsManeuver2D>,
    doublings_left: u32,
    refinements_left: u32,
}

impl View for RadiusSearch {
    type V = Search;

    closed spec fn view(&self) -> Search {
        Search {
            target: Maneuver3D::unattempted(self.qi, self.qf, self.rhomin, self.pitchlims),
            phase: self.phase,
            factor: self.factor,
            step: self.step,
            best: self.best@,
            doublings_left: self.doublings_left as nat,
            refinements_left: self.refinements_left as nat,
        }
    }
}

impl RadiusSearch {
    #[verifier::type_invariant]
    spec fn sound(self) -> bool {
        self@.wf()
    }

    /// The search for the maneuver between two poses, before its first trial.
    pub fn new(qi: State, qf: State, rhomin: Scalar, pitchlims: (Scalar, Scalar)) -> (r:
        RadiusSearch)
        ensures
            r@ == Search::start(qi, qf, rhomin, pitchlims),
    {
        let r = RadiusSearch {
            qi,
            qf,
            rhomin,
            pitchlims,
            phase: SearchPhase::Doubling,
            factor: Scalar::one(),
            step: Scalar::tenth(),
            best: Vec::new(),
            doublings_left: MAX_DOUBLINGS,
            refinements_left: MAX_REFINEMENTS,
        };
        assert(r@.best =~= Seq::empty());
        r
    }

    /// The stage of the search.
    pub fn phase(&self) -> (r: SearchPhase)
        ensures
            r == self@.phase,
            self@.wf(),
    {
        proof {
            use_type_invariant(self);
        }
        self.phase
    }

    /// Whether the search has ended.
    pub fn is_finished(&self) -> (r: bool)
        ensures
            r == (self@.phase == SearchPhase::Finished),
            r == (self@.remaining() == 0),
    {
        proof {
            use_type_invariant(self);
        }
        self.phase == SearchPhase::Finished
    }

    /// The factor of the best trial, or the factor to try while doubling.
    pub fn factor(&self) -> (r: Scalar)
        ensures
            r == self@.factor,
    {
        self.factor
    }

    /// The step by which the factor moves next.
    pub fn step(&self) -> (r: Scalar)
        ensures
            r == self@.step,
    {
        self.step
    }

    /// The maneuver that the search is for, before any construction.
    pub fn target(&self) -> (r: DubinsManeuver3D)
        ensures
            r@ == self@.target,
    {
        DubinsManeuver3D::new(self.qi, self.qf, self.rhomin, self.pitchlims)
    }

    /// The factor to try next, where `shifted` is the factor plus the step.
    pub fn proposal(&self, shifted: Scalar) -> (r: Scalar)
        ensures
            r == self@.proposal(shifted),
    {
        if self.phase == SearchPhase::Refining {
            shifted.max(Scalar::one())
        } else {
            self.factor
        }
    }

    /// Takes in one trial. `shifted` is the factor plus the step, as it was
    /// handed to [`RadiusSearch::proposal`]; `trial` is what the caller has
    /// computed at the factor proposed, and `reversed` is the step times
    /// minus one tenth. The two planes are solved here, between the poses of
    /// the target, and judged by [`try_to_construct`].
    pub fn advance(&mut self, shifted: Scalar, trial: &TrialEvaluation, reversed: Scalar)
        ensures
            final(self)@ == old(self)@.next(shifted, *trial, reversed),
            old(self)@.phase != SearchPhase::Finished ==> final(self)@.remaining() < old(
                self,
            )@.remaining(),
    {
        proof {
            use_type_invariant(&*self);
            lemma_search_progresses(self@, shifted, *trial, reversed);
        }
        let target = self.target();
        let paths = try_to_construct(&target, trial);
        match self.phase {
            SearchPhase::Doubling => {
                if paths.len() == 2 {
                    *self = RadiusSearch {
                        qi: self.qi,
                        qf: self.qf,
                        rhomin: self.rhomin,
                        pitchlims: self.pitchlims,
                        phase: SearchPhase::Refining,
                        factor: self.factor,
                        step: self.step,
                        best: paths,
                        doublings_left: self.doublings_left,
                        refinements_left: MAX_REFINEMENTS,
                    };
                } else if self.doublings_left > 0 {
                    self.factor = self.factor.doubled();
                    self.doublings_left = self.doublings_left - 1;
                } else {
                    self.phase = SearchPhase::Finished;
                }
            },
            SearchPhase::Refining => {
                let accepted = paths.len() == 2 && paths[1].maneuver.length.lt(
                    self.best[1].maneuver.length,
                );
                let step = if accepted {
                    self.step.doubled()
                } else {
                    reversed
                };
                let left: u32 = self.refinements_left - 1;
                let phase = if step.abs().lt(Scalar::ten_billionth()) || left == 0 {
                    SearchPhase::Finished
                } else {
                    SearchPhase::Refining
                };
                if accepted {
                    let factor = self.proposal(shifted);
                    *self = RadiusSearch {
                        qi: self.qi,
                        qf: self.qf,
                        rhomin: self.rhomin,
                        pitchlims: self.pitchlims,
                        phase,
                        factor,
                        step,
                        best: paths,
                        doublings_left: self.doublings_left,
                        refinements_left: left,
                    };
                } else {
                    self.phase = SearchPhase::Finished;
                    self.refinements_left = left;
                    self.step = step;
                    self.phase = phase;
                }
            },
            SearchPhase::Finished => {},
        }
    }

    /// The maneuver of the best trial, with the length of its vertical path;
    /// or the maneuver before any construction where no trial gave one.
    pub fn finish(self) -> (r: DubinsManeuver3D)
        ensures
            r@ == self@.outcome(),
            r@.shaped(),
            r@.path.len() == 2 ==> number_lt(r@.rhomin@, r@.path[0].rhomin@),
    {
        proof {
            use_type_invariant(&self);
            lemma_outcome_is_wired(self@);
        }
        if self.best.len() == 2 {
            let length = self.best[1].maneuver.length;
            let found = DubinsManeuver3D {
                qi: self.qi,
                qf: self.qf,
                rhomin: self.rhomin,
                pitchlims: self.pitchlims,
                path: self.best,
                length,
            };
            assert(found@.path =~= seq![self@.best[0], self@.best[1]]);
            found
        } else {
            DubinsManeuver3D::new(self.qi, self.qf, self.rhomin, self.pitchlims)
        }
    }
}

} // verus!
