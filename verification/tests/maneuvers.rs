// The arithmetic of Dubins maneuvers on machine numbers, around the decisions
// of the library, and the maneuvers that come out of the two together.

#![allow(dead_code)]

use core::f64::consts::PI;
use dubins3d::dubins2d::{Arcs, DubinsManeuver2D, Leg, PlanarEvaluation, SegmentType};
use dubins3d::dubins3d::{
    lateral_poses, longitudinal_poses, solve_lateral, steepest_pitch, BoundEvaluation, Error,
    RadiusSearch, SearchPhase, TrialEvaluation,
};
use dubins3d::scalar::Scalar;
use dubins3d::Normalized;
use dubins3d::vertical::{
    get_vertical, Profile, TangentEvaluation, TwoTurnEvaluation, VerticalEvaluation,
};

/// The scalar of a machine number.
pub fn scalar(x: f64) -> Scalar {
    Scalar::from_bits(x.to_bits())
}

/// The machine number of a scalar.
pub fn number(x: Scalar) -> f64 {
    f64::from_bits(x.to_bits())
}

/// A pose in space: position, yaw and pitch.
#[derive(Copy, Clone, Debug, PartialEq)]
pub struct State {
    pub x: f64,
    pub y: f64,
    pub z: f64,
    pub yaw: f64,
    pub pitch: f64,
}

impl From<State> for dubins3d::State {
    fn from(q: State) -> Self {
        dubins3d::State {
            x: scalar(q.x),
            y: scalar(q.y),
            z: scalar(q.z),
            yaw: scalar(q.yaw),
            pitch: scalar(q.pitch),
        }
    }
}

impl From<dubins3d::State> for State {
    fn from(q: dubins3d::State) -> Self {
        State {
            x: number(q.x),
            y: number(q.y),
            z: number(q.z),
            yaw: number(q.yaw),
            pitch: number(q.pitch),
        }
    }
}

/// The angle between zero and a full turn that differs from `th` by whole
/// turns.
pub fn mod2pi(th: f64) -> f64 {
    match dubins3d::mod2pi(scalar(th)) {
        Normalized::Ready(angle) => number(angle),
        Normalized::Lift(remainder) => number(remainder) + 2.0 * PI,
    }
}

/// The numbers of a path with the given segment parameters.
fn arcs(t: f64, p: f64, q: f64, rhomin: f64) -> Arcs {
    Arcs { t: scalar(t), p: scalar(p), q: scalar(q), length: scalar((t + p + q) * rhomin) }
}

/// Evaluates the six families between two poses, in the frame of the chord.
pub fn evaluate_planar(qi: (f64, f64, f64), qf: (f64, f64, f64), rhomin: f64) -> PlanarEvaluation {
    let dx = qf.0 - qi.0;
    let dy = qf.1 - qi.1;
    let d = (dx * dx + dy * dy).sqrt() / rhomin;

    let rotation_angle = mod2pi(dy.atan2(dx));
    let a = mod2pi(qi.2 - rotation_angle);
    let b = mod2pi(qf.2 - rotation_angle);

    let (sa, ca) = (a.sin(), a.cos());
    let (sb, cb) = (b.sin(), b.cos());

    let aux = (cb - ca).atan2(d + sa - sb);
    let lsl = arcs(
        mod2pi(-a + aux),
        (2.0 + d * d - 2.0 * (a - b).cos() + 2.0 * d * (sa - sb)).sqrt(),
        mod2pi(b - aux),
        rhomin,
    );

    let aux = (ca - cb).atan2(d - sa + sb);
    let rsr = arcs(
        mod2pi(a - aux),
        (2.0 + d * d - 2.0 * (a - b).cos() + 2.0 * d * (sb - sa)).sqrt(),
        mod2pi(mod2pi(-b) + aux),
        rhomin,
    );

    let lsr_discriminant = -2.0 + d * d + 2.0 * (a - b).cos() + 2.0 * d * (sa + sb);
    let p = lsr_discriminant.sqrt();
    let aux2 = (-ca - cb).atan2(d + sa + sb) - (-2.0 / p).atan();
    let lsr = arcs(mod2pi(-a + aux2), p, mod2pi(-mod2pi(b) + aux2), rhomin);

    let rsl_discriminant = d * d - 2.0 + 2.0 * (a - b).cos() - 2.0 * d * (sa + sb);
    let p = rsl_discriminant.sqrt();
    let aux2 = (ca + cb).atan2(d - sa - sb) - (2.0 / p).atan();
    let rsl = arcs(mod2pi(a - aux2), p, mod2pi(mod2pi(b) - aux2), rhomin);

    let rlr_cosine = (6.0 - d * d + 2.0 * (a - b).cos() + 2.0 * d * (sa - sb)) / 8.0;
    let p = mod2pi(-rlr_cosine.acos());
    let t = mod2pi(a - (ca - cb).atan2(d - sa + sb) + p / 2.0);
    let rlr = arcs(t, p, mod2pi(a - b - t + p), rhomin);

    let lrl_cosine = (6.0 - d * d + 2.0 * (a - b).cos() + 2.0 * d * (-sa + sb)) / 8.0;
    let p = mod2pi(-lrl_cosine.acos());
    let t = mod2pi(-a + (-ca + cb).atan2(d + sa - sb) + p / 2.0);
    let lrl = arcs(t, p, mod2pi(b - a - t + p), rhomin);

    PlanarEvaluation {
        d: scalar(d),
        a: scalar(a),
        b: scalar(b),
        dx: scalar(qi.0 - qf.0),
        dy: scalar(qi.1 - qf.1),
        tolerance: scalar(rhomin * 1e-5),
        lsl,
        rsr,
        lsr_discriminant: scalar(lsr_discriminant),
        lsr,
        rsl_discriminant: scalar(rsl_discriminant),
        rsl,
        rlr_cosine: scalar(rlr_cosine),
        rlr,
        lrl_cosine: scalar(lrl_cosine),
        lrl,
        circumference: scalar(2.0 * PI * rhomin),
    }
}

/// The planar maneuver between two poses: the shortest path of length
/// `min_length` at least, where negative infinity asks for the shortest.
pub fn solve_planar(
    qi: (f64, f64, f64),
    qf: (f64, f64, f64),
    rhomin: f64,
    min_length: f64,
    disable_ccc: bool,
) -> DubinsManeuver2D {
    let evaluation = evaluate_planar(qi, qf, rhomin);
    DubinsManeuver2D::new(
        (scalar(qi.0), scalar(qi.1), scalar(qi.2)),
        (scalar(qf.0), scalar(qf.1), scalar(qf.2)),
        scalar(rhomin),
        scalar(min_length),
        disable_ccc,
        &evaluation,
    )
}

/// The pose at arc length `offset` from the start of a chosen path.
pub fn get_coordinates_at(maneuver: &DubinsManeuver2D, offset: f64) -> (f64, f64, f64) {
    let rhomin = number(maneuver.rhomin);
    let n_offset = offset / rhomin;

    let qi: (f64, f64, f64) = (0.0, 0.0, number(maneuver.qi.2));

    let l1 = number(maneuver.maneuver.t);
    let l2 = number(maneuver.maneuver.p);
    let q1 = get_position_in_segment(l1, qi, maneuver.segment(Leg::First));
    let q2 = get_position_in_segment(l2, q1, maneuver.segment(Leg::Second));

    let leg = maneuver.leg_at(scalar(n_offset), scalar(l1 + l2));
    let mut q = match leg {
        Leg::First => get_position_in_segment(n_offset, qi, maneuver.segment(leg)),
        Leg::Second => get_position_in_segment(n_offset - l1, q1, maneuver.segment(leg)),
        Leg::Third => get_position_in_segment(n_offset - l1 - l2, q2, maneuver.segment(leg)),
    };
    q.0 = q.0 * rhomin + number(maneuver.qi.0);
    q.1 = q.1 * rhomin + number(maneuver.qi.1);
    q.2 = mod2pi(q.2);
    q
}

fn get_position_in_segment(offset: f64, qi: (f64, f64, f64), case: SegmentType) -> (f64, f64, f64) {
    match case {
        SegmentType::LEFT => (
            qi.0 + (qi.2 + offset).sin() - qi.2.sin(),
            qi.1 - (qi.2 + offset).cos() + qi.2.cos(),
            qi.2 + offset,
        ),
        SegmentType::RIGHT => (
            qi.0 - (qi.2 - offset).sin() + qi.2.sin(),
            qi.1 + (qi.2 - offset).cos() - qi.2.cos(),
            qi.2 - offset,
        ),
        SegmentType::STRAIGHT => {
            (qi.0 + (qi.2).cos() * offset, qi.1 + (qi.2).sin() * offset, qi.2)
        }
        SegmentType::NONE => (0.0, 0.0, 0.0),
    }
}

/// Evaluates the family with two left turns (`side` one) or two right turns
/// (`side` minus one): the path with both turns, and the two paths with one
/// turn dropped.
fn evaluate_two_turn(
    qi: (f64, f64, f64),
    qf: (f64, f64, f64),
    radius: f64,
    side: f64,
) -> TwoTurnEvaluation {
    let theta1 = qi.2;
    let theta2 = qf.2;
    let start = (qi.0, qi.1);
    let goal = (qf.0, qf.1);

    let c1 = radius * theta1.cos();
    let s1 = radius * theta1.sin();
    let c2 = radius * theta2.cos();
    let s2 = radius * theta2.sin();

    let o1 = (start.0 - side * s1, start.1 + side * c1);
    let o2 = (goal.0 - side * s2, goal.1 + side * c2);

    let diff = (o2.0 - o1.0, o2.1 - o1.1);
    let center_distance = (diff.0 * diff.0 + diff.1 * diff.1).sqrt();
    let center_angle = (diff.1).atan2(diff.0);

    let t = mod2pi(side * (-theta1 + center_angle));
    let p = center_distance / radius;
    let q = mod2pi(side * (theta2 - center_angle));
    let sweep = side * (theta2 - theta1);

    let first_offset = (o2.1 - side * (radius * theta1.cos())) - start.1;
    let first_run = first_offset / theta1.sin() / radius;
    let second_offset = goal.1 - (o1.1 - side * (radius * theta2.cos()));
    let second_run = second_offset / theta2.sin() / radius;

    TwoTurnEvaluation {
        direct: Profile { arcs: arcs(t, p, q, radius), apex: scalar(theta1 + side * t) },
        sweep: scalar(sweep),
        first_offset: scalar(first_offset),
        first_run: scalar(first_run),
        first_length: scalar((0.0 + first_run + sweep) * radius),
        second_offset: scalar(second_offset),
        second_run: scalar(second_run),
        second_length: scalar((sweep + second_run + 0.0) * radius),
        swept_apex: scalar(theta1 + side * sweep),
    }
}

/// Evaluates the family that climbs between a left and a right turn (`side`
/// one, against the limit `limit` from above) or dives between a right and a
/// left turn (`side` minus one, against `limit` from below).
fn evaluate_tangent(
    qi: (f64, f64, f64),
    qf: (f64, f64, f64),
    radius: f64,
    side: f64,
    limit: f64,
) -> TangentEvaluation {
    let theta1 = qi.2;
    let theta2 = qf.2;
    let start = (qi.0, qi.1);
    let goal = (qf.0, qf.1);

    let c1 = radius * theta1.cos();
    let s1 = radius * theta1.sin();
    let c2 = radius * theta2.cos();
    let s2 = radius * theta2.sin();

    let o1 = (start.0 - side * s1, start.1 + side * c1);
    let o2 = (goal.0 + side * s2, goal.1 - side * c2);

    let diff = (o2.0 - o1.0, o2.1 - o1.1);
    let center_distance = (diff.0 * diff.0 + diff.1 * diff.1).sqrt();

    let alpha = (2.0 * radius / center_distance).asin();
    let crossing_apart = (diff.1).atan2(diff.0) + side * alpha;
    let overlapped = (4.0 * radius * radius - diff.1 * diff.1).sqrt();
    let crossing_overlapping = (diff.1).atan2(overlapped) + side * (PI / 2.0);

    let squared = center_distance * center_distance - 4.0 * radius * radius;
    let run = number(scalar(squared).max(scalar(0.0))).sqrt() / radius;
    let along = |center_angle: f64, p: f64| -> Profile {
        let t = mod2pi(side * (-theta1 + center_angle));
        let q = mod2pi(side * (-theta2 + center_angle));
        Profile { arcs: arcs(t, p, q, radius), apex: scalar(theta1 + side * t) }
    };

    let c = radius * limit.cos();
    let s = radius * limit.sin();
    let w1 = (o1.0 + side * s, o1.1 - side * c);
    let w2 = (o2.0 - side * s, o2.1 + side * c);
    let clamped_run = (w2.1 - w1.1) / limit.sin() / radius;

    TangentEvaluation {
        separation: scalar(center_distance),
        crossing_apart: scalar(crossing_apart),
        crossing_overlapping: scalar(crossing_overlapping),
        free_apart: along(crossing_apart, run),
        free_overlapping: along(crossing_overlapping, run),
        clamped: along(limit, clamped_run),
    }
}

/// Evaluates the four families between two poses of the vertical plane.
pub fn evaluate_vertical(
    qi: (f64, f64, f64),
    qf: (f64, f64, f64),
    rhomin: f64,
    pitchmax: (f64, f64),
) -> VerticalEvaluation {
    VerticalEvaluation {
        lsl: evaluate_two_turn(qi, qf, rhomin, 1.0),
        rsr: evaluate_two_turn(qi, qf, rhomin, -1.0),
        lsr: evaluate_tangent(qi, qf, rhomin, 1.0, pitchmax.1),
        rsl: evaluate_tangent(qi, qf, rhomin, -1.0, pitchmax.0),
    }
}

/// The maneuver between two poses of the vertical plane whose pitch stays
/// within the limits.
pub fn solve_vertical(
    qi: (f64, f64, f64),
    qf: (f64, f64, f64),
    rhomin: f64,
    pitchmax: (f64, f64),
) -> DubinsManeuver2D {
    let evaluation = evaluate_vertical(qi, qf, rhomin, pitchmax);
    get_vertical(
        (scalar(qi.0), scalar(qi.1), scalar(qi.2)),
        (scalar(qf.0), scalar(qf.1), scalar(qf.2)),
        scalar(rhomin),
        (scalar(pitchmax.0), scalar(pitchmax.1)),
        &evaluation,
    )
}

/// A maneuver in space between two poses.
pub struct DubinsManeuver3D {
    inner: dubins3d::DubinsManeuver3D,
}

fn limits(pitchlims: (f64, f64)) -> (Scalar, Scalar) {
    (scalar(pitchlims.0), scalar(pitchlims.1))
}

fn numbers(pose: (Scalar, Scalar, Scalar)) -> (f64, f64, f64) {
    (number(pose.0), number(pose.1), number(pose.2))
}

/// Evaluates both planes at one radius each, between the poses that the
/// library names: the horizontal plane first, and the vertical plane over the
/// length of the horizontal path that the library chooses.
fn evaluate_planes(
    qi: dubins3d::State,
    qf: dubins3d::State,
    lateral_radius: f64,
    vertical_radius: f64,
    pitchlims: (f64, f64),
) -> (dubins3d::dubins2d::PlanarEvaluation, dubins3d::vertical::VerticalEvaluation) {
    let ground = lateral_poses(qi, qf);
    let lateral = evaluate_planar(numbers(ground.0), numbers(ground.1), lateral_radius);
    let dlat = solve_lateral(qi, qf, scalar(lateral_radius), &lateral);
    let climb = longitudinal_poses(qi, qf, &dlat);
    let vertical =
        evaluate_vertical(numbers(climb.0), numbers(climb.1), vertical_radius, pitchlims);
    (lateral, vertical)
}

/// What one trial of the search takes: both planes evaluated at a horizontal
/// radius.
fn evaluate_trial(
    qi: dubins3d::State,
    qf: dubins3d::State,
    rhomin: f64,
    pitchlims: (f64, f64),
    horizontal_radius: f64,
) -> TrialEvaluation {
    let vertical_curvature =
        (1.0 / rhomin / rhomin - 1.0 / horizontal_radius / horizontal_radius).sqrt();
    let vertical_radius = 1.0 / vertical_curvature;
    let (lateral, vertical) =
        evaluate_planes(qi, qf, horizontal_radius, vertical_radius, pitchlims);
    TrialEvaluation {
        horizontal_radius: scalar(horizontal_radius),
        lateral,
        vertical_curvature: scalar(vertical_curvature),
        vertical_radius: scalar(vertical_radius),
        vertical,
    }
}

/// What a bound takes: both planes evaluated at the radius of the bound.
fn evaluate_bound(
    qi: dubins3d::State,
    qf: dubins3d::State,
    radius: f64,
    pitchlims: (f64, f64),
) -> BoundEvaluation {
    let (lateral, vertical) = evaluate_planes(qi, qf, radius, radius, pitchlims);
    BoundEvaluation { radius: scalar(radius), lateral, vertical }
}

impl DubinsManeuver3D {
    /// The maneuver between two poses, by the search for the horizontal
    /// radius that makes the vertical path shortest.
    pub fn new(qi: State, qf: State, rhomin: f64, pitchlims: (f64, f64)) -> DubinsManeuver3D {
        let mut search =
            RadiusSearch::new(qi.into(), qf.into(), scalar(rhomin), limits(pitchlims));
        while !search.is_finished() {
            let shifted = scalar(number(search.factor()) + number(search.step()));
            let factor = search.proposal(shifted);
            let trial =
                evaluate_trial(qi.into(), qf.into(), rhomin, pitchlims, rhomin * number(factor));
            let reversed = scalar(number(search.step()) * -0.1);
            search.advance(shifted, &trial, reversed);
        }
        DubinsManeuver3D { inner: search.finish() }
    }

    /// A length that no maneuver between the two poses falls short of.
    pub fn get_lower_bound(
        qi: State,
        qf: State,
        rhomin: f64,
        pitchlims: (f64, f64),
    ) -> DubinsManeuver3D {
        let steepest = number(steepest_pitch(limits(pitchlims)));
        let spiral_radius = rhomin * steepest.cos().powi(2);
        let evaluation = evaluate_bound(qi.into(), qf.into(), spiral_radius, pitchlims);
        DubinsManeuver3D {
            inner: dubins3d::DubinsManeuver3D::get_lower_bound(
                qi.into(),
                qf.into(),
                scalar(rhomin),
                limits(pitchlims),
                &evaluation,
            ),
        }
    }

    /// A length that the shortest maneuver between the two poses does not
    /// exceed; infinite where this estimate does not apply.
    pub fn get_upper_bound(
        qi: State,
        qf: State,
        rhomin: f64,
        pitchlims: (f64, f64),
    ) -> DubinsManeuver3D {
        let safe_radius = (2.0 as f64).sqrt() * rhomin;
        let diff = (qf.x - qi.x, qf.y - qi.y);
        let dist = (diff.0 * diff.0 + diff.1 * diff.1).sqrt();
        let evaluation = evaluate_bound(qi.into(), qf.into(), safe_radius, pitchlims);
        DubinsManeuver3D {
            inner: dubins3d::DubinsManeuver3D::get_upper_bound(
                qi.into(),
                qf.into(),
                scalar(rhomin),
                limits(pitchlims),
                scalar(dist),
                &evaluation,
            ),
        }
    }

    /// The length: minus one where no maneuver was found, infinite where none
    /// exists, else the length of the vertical path.
    pub fn length(&self) -> f64 {
        number(self.inner.length())
    }

    /// The maneuver as the library holds it.
    pub fn as_library(&self) -> &dubins3d::DubinsManeuver3D {
        &self.inner
    }

    /// The pose at arc length `progress` from the start.
    pub fn state_at(&self, progress: f64) -> Result<State, Error> {
        match (self.inner.lateral(), self.inner.longitudinal()) {
            (Some(dlat), Some(dlon)) => {
                let q_sz = get_coordinates_at(&dlon, progress);
                let q_xy = get_coordinates_at(&dlat, q_sz.0);
                Ok(State { x: q_xy.0, y: q_xy.1, z: q_sz.1, yaw: q_xy.2, pitch: q_sz.2 })
            }
            _ => Err(Error::InfeasibleManeuver),
        }
    }

    /// `number_of_samples` poses along the maneuver, evenly spaced by arc
    /// length from its start.
    pub fn compute_sampling(&self, number_of_samples: i32) -> Result<Vec<State>, Error> {
        let fractions = self.inner.compute_sampling(number_of_samples)?;
        let length = self.length();
        let mut points: Vec<State> = Vec::new();
        for fraction in fractions {
            let prog: f64 = length * (fraction.numerator as f64) / (fraction.denominator as f64);
            points.push(self.state_at(prog)?);
        }
        Ok(points)
    }
}

fn degrees(x: f64) -> f64 {
    PI * x / 180.0
}

fn origin() -> State {
    State { x: 0.0, y: 0.0, z: 0.0, yaw: 0.0, pitch: 0.0 }
}

fn climb_goal() -> State {
    State { x: 100.0, y: 100.0, z: 100.0, yaw: 0.0, pitch: 0.0 }
}

fn climb_limits() -> (f64, f64) {
    (degrees(-15.0), degrees(20.0))
}

fn close(a: f64, b: f64, tolerance: f64) -> bool {
    (a - b).abs() <= tolerance
}

/// Whether two angles differ by a whole number of turns, up to `tolerance`.
fn same_heading(a: f64, b: f64, tolerance: f64) -> bool {
    let turn = 2.0 * PI;
    let gap = (a - b).rem_euclid(turn);
    gap <= tolerance || turn - gap <= tolerance
}

fn same_state(a: State, b: State, tolerance: f64) -> bool {
    close(a.x, b.x, tolerance)
        && close(a.y, b.y, tolerance)
        && close(a.z, b.z, tolerance)
        && same_heading(a.yaw, b.yaw, tolerance)
        && same_heading(a.pitch, b.pitch, tolerance)
}

/// Runs a search, and counts its trials.
fn search_counting(
    qi: State,
    qf: State,
    rhomin: f64,
    pitchlims: (f64, f64),
) -> (DubinsManeuver3D, u32) {
    let mut search = RadiusSearch::new(qi.into(), qf.into(), scalar(rhomin), limits(pitchlims));
    let mut trials: u32 = 0;
    while !search.is_finished() {
        let shifted = scalar(number(search.factor()) + number(search.step()));
        let factor = search.proposal(shifted);
        let trial =
            evaluate_trial(qi.into(), qf.into(), rhomin, pitchlims, rhomin * number(factor));
        let reversed = scalar(number(search.step()) * -0.1);
        search.advance(shifted, &trial, reversed);
        trials += 1;
    }
    (DubinsManeuver3D { inner: search.finish() }, trials)
}

#[test]
fn normalized_angles_lie_within_one_turn() {
    let angles = [
        -100.0, -7.0, -2.0 * PI, -PI, -1.0, -0.001, 0.0, 0.001, 1.0, PI, 6.0, 2.0 * PI, 7.0,
        100.0, 1.0e6, -1.0e6,
    ];
    for &th in angles.iter() {
        let n = mod2pi(th);
        assert!(0.0 <= n && n < 2.0 * PI, "mod2pi({}) = {}", th, n);
        assert_eq!(mod2pi(n).to_bits(), n.to_bits(), "mod2pi is not idempotent at {}", th);
        assert!(same_heading(n, th, 1e-9 * (1.0 + th.abs())));
    }
}

#[test]
fn normalization_has_exact_values() {
    assert_eq!(mod2pi(0.0), 0.0);
    assert_eq!(mod2pi(1.0), 1.0);
    assert_eq!(mod2pi(7.0), 7.0 - 2.0 * PI);
    assert_eq!(mod2pi(-7.0), (-7.0 % (2.0 * PI)) + 2.0 * PI);
    assert!(close(mod2pi(-7.0), 5.5663706143591725, 1e-15));
    assert_eq!(mod2pi(2.0 * PI), 0.0);
    assert_eq!(mod2pi(-1.0), 2.0 * PI - 1.0);
}

#[test]
fn a_tiny_negative_angle_rounds_up_to_a_full_turn() {
    // The remainder is kept exactly, and the turn added to it swallows it.
    assert_eq!(mod2pi(-1.0e-20), 2.0 * PI);
    assert!(mod2pi(f64::NAN).is_nan());
}

fn pose_grid() -> Vec<((f64, f64, f64), (f64, f64, f64), f64)> {
    let mut grid = Vec::new();
    let headings = [0.0, 0.5, 1.5, 3.0, 4.5, 6.0];
    let goals = [(4.0, 0.0), (3.0, 4.0), (-3.0, 0.5), (0.5, 0.0), (0.0, -10.0), (25.0, 7.0)];
    let radii = [1.0, 2.5];
    for &h1 in headings.iter() {
        for &h2 in headings.iter() {
            for &(x, y) in goals.iter() {
                for &r in radii.iter() {
                    grid.push(((1.0, 2.0, h1), (1.0 + x, 2.0 + y, h2), r));
                }
            }
        }
    }
    grid
}

#[test]
fn planar_paths_have_the_length_of_their_segments() {
    for (qi, qf, rhomin) in pose_grid() {
        let m = solve_planar(qi, qf, rhomin, f64::NEG_INFINITY, false);
        assert!(m.maneuver.case.a != SegmentType::NONE);
        let (t, p, q) = (number(m.maneuver.t), number(m.maneuver.p), number(m.maneuver.q));
        assert!(t.is_finite() && p.is_finite() && q.is_finite());
        assert!(t >= 0.0 && p >= 0.0 && q >= 0.0);
        assert_eq!(number(m.maneuver.length), (t + p + q) * rhomin);
        let straight = ((qf.0 - qi.0).powi(2) + (qf.1 - qi.1).powi(2)).sqrt();
        assert!(number(m.maneuver.length) >= straight - 1e-9);
    }
}

#[test]
fn planar_paths_end_at_the_goal() {
    for (qi, qf, rhomin) in pose_grid() {
        let m = solve_planar(qi, qf, rhomin, f64::NEG_INFINITY, false);
        let start = get_coordinates_at(&m, 0.0);
        assert!(close(start.0, qi.0, 1e-9) && close(start.1, qi.1, 1e-9));
        assert!(same_heading(start.2, qi.2, 1e-9));
        let end = get_coordinates_at(&m, number(m.maneuver.length));
        assert!(close(end.0, qf.0, 1e-6), "{:?} {:?} {:?}", qi, qf, end);
        assert!(close(end.1, qf.1, 1e-6), "{:?} {:?} {:?}", qi, qf, end);
        assert!(same_heading(end.2, qf.2, 1e-6), "{:?} {:?} {:?}", qi, qf, end);
    }
}

#[test]
fn planar_path_has_exact_values() {
    let m = solve_planar((0.0, 0.0, 0.0), (4.0, 0.0, 0.0), 1.0, f64::NEG_INFINITY, false);
    assert!(m.maneuver.case.a == SegmentType::LEFT);
    assert!(m.maneuver.case.b == SegmentType::STRAIGHT);
    assert!(m.maneuver.case.c == SegmentType::LEFT);
    assert_eq!(number(m.maneuver.t), 0.0);
    assert_eq!(number(m.maneuver.p), 4.0);
    assert_eq!(number(m.maneuver.q), 0.0);
    assert_eq!(number(m.maneuver.length), 4.0);

    let m = solve_planar((0.0, 0.0, 0.5), (3.0, 4.0, 2.0), 1.0, f64::NEG_INFINITY, false);
    assert!(m.maneuver.case.a == SegmentType::LEFT && m.maneuver.case.c == SegmentType::LEFT);
    assert!(close(number(m.maneuver.length), 5.23221905571412, 1e-12));

    let m = solve_planar((0.0, 0.0, 1.0), (0.5, 0.0, -1.0), 1.0, f64::NEG_INFINITY, false);
    assert!(m.maneuver.case.a == SegmentType::RIGHT);
    assert!(m.maneuver.case.b == SegmentType::LEFT);
    assert!(m.maneuver.case.c == SegmentType::RIGHT);
    assert!(close(number(m.maneuver.length), 7.082283872968304, 1e-12));
}

#[test]
fn disabling_the_three_turn_families_leaves_a_path_with_a_straight_segment() {
    let m = solve_planar((0.0, 0.0, 1.0), (0.5, 0.0, -1.0), 1.0, f64::NEG_INFINITY, true);
    assert!(m.maneuver.case.b == SegmentType::STRAIGHT);
    assert!(m.maneuver.case.a == SegmentType::RIGHT && m.maneuver.case.c == SegmentType::RIGHT);
    assert!(close(number(m.maneuver.length), 9.46612727679538, 1e-12));
}

#[test]
fn a_floor_skips_the_paths_that_are_too_short() {
    let qi = (0.0, 0.0, 0.5);
    let qf = (3.0, 4.0, 2.0);
    let m = solve_planar(qi, qf, 1.0, 6.0, false);
    assert!(m.maneuver.case.a == SegmentType::LEFT);
    assert!(m.maneuver.case.b == SegmentType::RIGHT);
    assert!(m.maneuver.case.c == SegmentType::LEFT);
    assert!(close(number(m.maneuver.length), 9.255118007933772, 1e-12));
    let m = solve_planar(qi, qf, 1.0, 11.2, false);
    assert!(m.maneuver.case.a == SegmentType::RIGHT && m.maneuver.case.c == SegmentType::LEFT);
    assert!(close(number(m.maneuver.length), 11.506472832810331, 1e-12));
    // An infinite length meets every floor: where a family has no path, its
    // place holder is what is left.
    let m = solve_planar(qi, qf, 1.0, 100.0, false);
    assert!(m.maneuver.case.a == SegmentType::RIGHT);
    assert!(m.maneuver.case.b == SegmentType::LEFT);
    assert!(m.maneuver.case.c == SegmentType::RIGHT);
    assert_eq!(number(m.maneuver.t), f64::INFINITY);
    assert_eq!(number(m.maneuver.length), f64::INFINITY);
    // Where every family has a path and none is long enough, no path is chosen.
    let m = solve_planar((0.0, 0.0, 0.0), (4.0, 0.0, 0.0), 1.0, 100.0, false);
    assert!(m.maneuver.case.a == SegmentType::NONE);
    assert!(m.maneuver.case.b == SegmentType::NONE);
    assert!(m.maneuver.case.c == SegmentType::NONE);
    assert_eq!(number(m.maneuver.t), 0.0);
    assert_eq!(number(m.maneuver.length), f64::INFINITY);
}

#[test]
fn mirrored_headings_swap_the_families() {
    for &d in [0.5, 2.0, 4.0, 10.0].iter() {
        for &h1 in [0.3, 1.0, 2.5, 4.0, 5.5].iter() {
            for &h2 in [0.2, 1.7, 3.1, 6.0].iter() {
                let e = evaluate_planar((0.0, 0.0, h1), (d, 0.0, h2), 1.0);
                let m = evaluate_planar((0.0, 0.0, -h1), (d, 0.0, -h2), 1.0);
                let pairs = [
                    (number(e.lsl.length), number(m.rsr.length)),
                    (number(e.rsr.length), number(m.lsl.length)),
                    (
                        number(dubins3d::dubins2d::lsr(e.lsr_discriminant, e.lsr).length),
                        number(dubins3d::dubins2d::rsl(m.rsl_discriminant, m.rsl).length),
                    ),
                    (
                        number(dubins3d::dubins2d::rsl(e.rsl_discriminant, e.rsl).length),
                        number(dubins3d::dubins2d::lsr(m.lsr_discriminant, m.lsr).length),
                    ),
                ];
                for &(x, y) in pairs.iter() {
                    if x.is_finite() || y.is_finite() {
                        // A turn of almost nothing on one side can be a turn of
                        // almost a whole circle on the other.
                        let turn = 2.0 * PI;
                        let gap = (x - y).abs();
                        let folded = gap.min((gap - turn).abs()).min((gap - 2.0 * turn).abs());
                        assert!(
                            folded <= 1e-9 * x.abs().max(y.abs()).max(1.0),
                            "{} {} {}: {} against {}",
                            d,
                            h1,
                            h2,
                            x,
                            y
                        );
                    } else {
                        assert_eq!(x.is_nan(), y.is_nan());
                    }
                }
            }
        }
    }
}

#[test]
fn coincident_poses_give_one_full_circle() {
    for &rhomin in [0.5, 1.0, 10.0].iter() {
        let m = solve_planar((3.0, -2.0, 0.0), (3.0, -2.0, 0.0), rhomin, f64::NEG_INFINITY, false);
        assert!(m.maneuver.case.a == SegmentType::RIGHT);
        assert!(m.maneuver.case.b == SegmentType::RIGHT);
        assert!(m.maneuver.case.c == SegmentType::RIGHT);
        assert_eq!(number(m.maneuver.t), 0.0);
        assert_eq!(number(m.maneuver.p), 2.0 * PI);
        assert_eq!(number(m.maneuver.q), 0.0);
        assert_eq!(number(m.maneuver.length), 2.0 * PI * rhomin);
    }
    let m = solve_planar((0.0, 0.0, 1e-6), (1e-6, 0.0, 2e-6), 1.0, f64::NEG_INFINITY, true);
    assert!(m.maneuver.case.a == SegmentType::RIGHT && m.maneuver.case.b == SegmentType::RIGHT);
    assert_eq!(number(m.maneuver.length), 2.0 * PI);
    // Just outside the tolerance the families are weighed.
    let m = solve_planar((0.0, 0.0, 0.0), (1.1e-5, 0.0, 0.0), 1.0, f64::NEG_INFINITY, true);
    assert!(m.maneuver.case.b == SegmentType::STRAIGHT);
    assert!(close(number(m.maneuver.length), 1.1e-5, 1e-9));
}

#[test]
fn coincident_poses_with_a_heading_far_from_zero_are_joined_without_any_length() {
    // The headings are measured in the frame of the chord, which has no
    // direction when the positions coincide; a heading of one radian is not
    // within the tolerance of zero, so the six families are weighed. The two
    // with turns of both sides have a discriminant of zero there, and one of
    // them has turns of no length.
    let m = solve_planar((0.0, 0.0, 1.0), (0.0, 0.0, 1.0), 1.0, f64::NEG_INFINITY, false);
    assert!(m.maneuver.case.a == SegmentType::RIGHT);
    assert!(m.maneuver.case.b == SegmentType::STRAIGHT);
    assert!(m.maneuver.case.c == SegmentType::LEFT);
    assert_eq!(number(m.maneuver.t), 0.0);
    assert_eq!(number(m.maneuver.p), 0.0);
    assert_eq!(number(m.maneuver.q), 0.0);
    assert_eq!(number(m.maneuver.length), 0.0);
    let e = evaluate_planar((0.0, 0.0, 1.0), (0.0, 0.0, 1.0), 1.0);
    assert!(!e.coincident());
    assert_eq!(number(e.lsr_discriminant), 0.0);
    assert_eq!(number(e.rsl_discriminant), 0.0);
    assert!(number(e.lsr.length).is_finite());
    assert!(close(number(e.lsl.length), 2.0 * PI, 1e-12));
}

#[test]
fn vertical_paths_keep_the_pitch_within_the_limits() {
    let lims = climb_limits();
    let goals = [
        (100.0, 10.0, 0.0),
        (100.0, -10.0, 0.0),
        (300.0, 60.0, 0.1),
        (300.0, -40.0, -0.1),
        (157.0, 100.0, 0.0),
        (50.0, 0.0, 0.0),
    ];
    for &qf in goals.iter() {
        for &r in [10.0, 14.0, 40.0].iter() {
            let qi = (0.0, 0.0, 0.0);
            let m = solve_vertical(qi, qf, r, lims);
            if m.maneuver.case.a == SegmentType::NONE {
                assert_eq!(number(m.maneuver.length), f64::INFINITY);
                continue;
            }
            let t = number(m.maneuver.t);
            let q = number(m.maneuver.q);
            assert!(t.abs() < PI && q.abs() < PI);
            let apex = if m.maneuver.case.a == SegmentType::LEFT { qi.2 + t } else { qi.2 - t };
            assert!(lims.0 <= apex && apex <= lims.1, "{:?} {} {}", qf, r, apex);
            assert!(m.maneuver.case.b == SegmentType::STRAIGHT);
        }
    }
}

#[test]
fn vertical_path_has_exact_values() {
    // A gentle climb: the straight segment stays below the upper limit.
    let m = solve_vertical((0.0, 0.0, 0.0), (300.0, 60.0, 0.0), 14.0, climb_limits());
    assert!(m.maneuver.case.a == SegmentType::LEFT && m.maneuver.case.c == SegmentType::RIGHT);
    let end = get_coordinates_at(&m, number(m.maneuver.length));
    assert!(close(end.0, 300.0, 1e-6) && close(end.1, 60.0, 1e-6));
    // A steep climb: the straight segment is held at the upper limit.
    let m = solve_vertical((0.0, 0.0, 0.0), (157.0, 100.0, 0.0), 10.0, climb_limits());
    assert!(m.maneuver.case.a == SegmentType::LEFT && m.maneuver.case.c == SegmentType::RIGHT);
    assert!(close(number(m.maneuver.t), degrees(20.0), 1e-12));
    assert!(close(number(m.maneuver.q), degrees(20.0), 1e-12));
    let end = get_coordinates_at(&m, number(m.maneuver.length));
    assert!(close(end.1, 100.0, 1e-6));
}

#[test]
fn example_maneuver_is_sampled_500_times() {
    let qi = origin();
    let qf = climb_goal();
    let dubins = DubinsManeuver3D::new(qi, qf, 10.0, climb_limits());
    assert!(dubins.length().is_finite());
    assert!(close(dubins.length(), 295.90645742871675, 1e-6), "{}", dubins.length());
    let samples = dubins.compute_sampling(500).unwrap();
    assert_eq!(samples.len(), 500);
    assert!(same_state(samples[0], qi, 1e-6));
    // The last sample lies one spacing before the end of the maneuver, and
    // the maneuver ends at the height and the pitch of the goal.
    let end = dubins.state_at(dubins.length()).unwrap();
    assert!(close(end.z, qf.z, 1e-6) && same_heading(end.pitch, qf.pitch, 1e-6));
    let spacing = dubins.length() / 500.0;
    let last = samples[499];
    let gap = ((last.x - end.x).powi(2) + (last.y - end.y).powi(2) + (last.z - end.z).powi(2))
        .sqrt();
    assert!(gap <= spacing * (1.0 + 1e-9), "{} {}", gap, spacing);
    assert!(gap >= spacing * 0.5);
}

#[test]
fn samples_advance_by_equal_steps_along_the_path() {
    let dubins = DubinsManeuver3D::new(origin(), climb_goal(), 10.0, climb_limits());
    for &n in [2, 3, 10, 77].iter() {
        let samples = dubins.compute_sampling(n).unwrap();
        assert_eq!(samples.len(), n as usize);
        assert!(same_state(samples[0], origin(), 1e-6));
        let spacing = dubins.length() / (n as f64);
        let mut climbed = samples[0].z;
        for i in 1..samples.len() {
            let a = samples[i - 1];
            let b = samples[i];
            let chord = ((b.x - a.x).powi(2) + (b.y - a.y).powi(2) + (b.z - a.z).powi(2)).sqrt();
            assert!(chord <= spacing * (1.0 + 1e-9));
            assert!(b.z >= climbed - 1e-9);
            climbed = b.z;
        }
    }
    assert_eq!(dubins.compute_sampling(0).unwrap().len(), 0);
    assert_eq!(dubins.compute_sampling(-3).unwrap().len(), 0);
}

#[test]
fn maneuvers_with_a_free_vertical_path_end_at_the_goal() {
    let goals = [
        (State { x: 50.0, y: 0.0, z: 300.0, yaw: 1.0, pitch: 0.1 }, 879.7506025737952),
        (State { x: 10.0, y: 5.0, z: -200.0, yaw: 3.0, pitch: -0.1 }, 774.545126373939),
        (State { x: 200.0, y: -40.0, z: 10.0, yaw: 2.0, pitch: 0.0 }, 218.760445249988),
        (State { x: 1000.0, y: 0.0, z: 0.0, yaw: 0.0, pitch: 0.0 }, 1000.0),
    ];
    for &(qf, length) in goals.iter() {
        let dubins = DubinsManeuver3D::new(origin(), qf, 10.0, climb_limits());
        assert!(close(dubins.length(), length, 1e-5), "{:?}: {}", qf, dubins.length());
        let start = dubins.state_at(0.0).unwrap();
        assert!(same_state(start, origin(), 1e-6));
        let end = dubins.state_at(dubins.length()).unwrap();
        assert!(same_state(end, qf, 1e-6), "{:?} {:?}", qf, end);
    }
}

#[test]
fn searches_end_within_their_budget() {
    let limits = [climb_limits(), (degrees(-5.0), degrees(5.0)), (degrees(-60.0), degrees(60.0))];
    let goals = [
        climb_goal(),
        State { x: 0.0, y: 0.0, z: 50.0, yaw: 0.0, pitch: 0.0 },
        State { x: 5.0, y: 5.0, z: 500.0, yaw: 0.0, pitch: 0.0 },
        State { x: -300.0, y: 20.0, z: -5.0, yaw: 4.0, pitch: 0.05 },
        State { x: 0.0, y: 0.0, z: 0.0, yaw: 0.0, pitch: 0.0 },
    ];
    for &lims in limits.iter() {
        for &qf in goals.iter() {
            for &rhomin in [1.0, 10.0, 40.0].iter() {
                let (found, trials) = search_counting(origin(), qf, rhomin, lims);
                assert!(trials >= 2 && trials <= 2024, "{} trials", trials);
                assert!(found.length() > 0.0);
            }
        }
    }
}

#[test]
fn found_maneuvers_are_made_of_the_two_planes_between_their_poses() {
    let tilted = State { x: 3.0, y: -4.0, z: 5.0, yaw: 0.5, pitch: -0.1 };
    let pairs = [
        (origin(), climb_goal()),
        (tilted, State { x: 50.0, y: 0.0, z: 300.0, yaw: 1.0, pitch: 0.1 }),
        (tilted, State { x: -300.0, y: 20.0, z: -5.0, yaw: 4.0, pitch: 0.05 }),
    ];
    for &(qi, qf) in pairs.iter() {
        let found = DubinsManeuver3D::new(qi, qf, 10.0, climb_limits());
        assert!(found.length().is_finite());
        let dlat = found.as_library().lateral().unwrap();
        let dlon = found.as_library().longitudinal().unwrap();
        assert_eq!(numbers(dlat.qi), (qi.x, qi.y, qi.yaw));
        assert_eq!(numbers(dlat.qf), (qf.x, qf.y, qf.yaw));
        assert_eq!(numbers(dlon.qi), (0.0, qi.z, qi.pitch));
        assert_eq!(numbers(dlon.qf), (number(dlat.maneuver.length), qf.z, qf.pitch));
        assert_eq!(found.length(), number(dlon.maneuver.length));
        // The radii share the curvature of the smallest turning radius.
        let h = number(dlat.rhomin);
        let v = number(dlon.rhomin);
        assert!(h > 10.0);
        assert!(close(1.0 / (h * h) + 1.0 / (v * v), 1.0 / 100.0, 1e-9 / 100.0));
        // The vertical path is one of the vertical plane.
        assert!(dlon.maneuver.case.b == SegmentType::STRAIGHT);
        assert!(number(dlon.maneuver.t).abs() < PI && number(dlon.maneuver.q).abs() < PI);
    }
}

#[test]
fn a_maneuver_whose_vertical_plane_has_no_path_has_infinite_length() {
    let qi = State { x: 3.0, y: -4.0, z: 5.0, yaw: 0.5, pitch: -0.1 };
    let found = DubinsManeuver3D::new(qi, climb_goal(), 10.0, climb_limits());
    assert_eq!(found.length(), f64::INFINITY);
    let dlat = found.as_library().lateral().unwrap();
    let dlon = found.as_library().longitudinal().unwrap();
    assert!(dlon.maneuver.case.a == SegmentType::NONE);
    assert_eq!(numbers(dlat.qi), (qi.x, qi.y, qi.yaw));
    assert_eq!(numbers(dlon.qf), (number(dlat.maneuver.length), 100.0, 0.0));
    assert_eq!(found.compute_sampling(10), Err(Error::InfeasibleManeuver));
}

#[test]
fn the_smallest_radius_is_never_enough_and_the_radius_is_doubled() {
    let qf = State { x: 5.0, y: 5.0, z: 500.0, yaw: 0.0, pitch: 0.0 };
    let mut search =
        RadiusSearch::new(origin().into(), qf.into(), scalar(10.0), limits(climb_limits()));
    let mut doublings = 0;
    while search.phase() == SearchPhase::Doubling {
        let shifted = scalar(number(search.factor()) + number(search.step()));
        let factor = search.proposal(shifted);
        assert_eq!(number(factor), (2.0 as f64).powi(doublings));
        let trial = evaluate_trial(
            origin().into(),
            qf.into(),
            10.0,
            climb_limits(),
            10.0 * number(factor),
        );
        let reversed = scalar(number(search.step()) * -0.1);
        search.advance(shifted, &trial, reversed);
        doublings += 1;
    }
    // At the smallest radius no curvature is left for the vertical plane.
    assert!(doublings >= 2, "{}", doublings);
    assert!(search.phase() == SearchPhase::Refining);
}

#[test]
fn a_start_that_climbs_beyond_the_limit_finds_no_maneuver() {
    let qi = State { x: 0.0, y: 0.0, z: 0.0, yaw: 0.0, pitch: 1.0 };
    let qf = State { x: 100.0, y: 0.0, z: 300.0, yaw: 0.0, pitch: 1.0 };
    let (found, trials) = search_counting(qi, qf, 10.0, climb_limits());
    assert!(trials <= 2024);
    if found.length() == -1.0 {
        assert_eq!(trials, 1024);
        assert!(found.as_library().lateral().is_none());
        assert_eq!(found.compute_sampling(10), Err(Error::InfeasibleManeuver));
    } else {
        let dlon = found.as_library().longitudinal().unwrap();
        assert_eq!(found.length(), number(dlon.maneuver.length));
    }
}

#[test]
fn bounds_enclose_the_example_maneuver() {
    let lower = DubinsManeuver3D::get_lower_bound(origin(), climb_goal(), 10.0, climb_limits());
    let upper = DubinsManeuver3D::get_upper_bound(origin(), climb_goal(), 10.0, climb_limits());
    let found = DubinsManeuver3D::new(origin(), climb_goal(), 10.0, climb_limits());
    assert!(close(lower.length(), 295.4310852255826, 1e-6), "{}", lower.length());
    assert!(close(upper.length(), 297.26623306161196, 1e-6), "{}", upper.length());
    assert!(lower.length() <= found.length() && found.length() <= upper.length());
    assert!(lower.as_library().lateral().is_some());
    assert!(upper.as_library().longitudinal().is_some());
}

#[test]
fn upper_bound_of_close_poses_is_infinite() {
    let lims = climb_limits();
    let reach = 4.0 * (2.0 as f64).sqrt() * 10.0;
    let goals = [
        State { x: 30.0, y: 30.0, z: 10.0, yaw: 0.0, pitch: 0.0 },
        State { x: 0.0, y: 0.0, z: 0.0, yaw: 0.0, pitch: 0.0 },
        State { x: reach - 0.001, y: 0.0, z: 500.0, yaw: 3.0, pitch: 0.2 },
        State { x: 0.0, y: -56.0, z: -10.0, yaw: 1.0, pitch: 0.0 },
    ];
    for &qf in goals.iter() {
        let upper = DubinsManeuver3D::get_upper_bound(origin(), qf, 10.0, lims);
        assert_eq!(upper.length(), f64::INFINITY);
        assert!(upper.as_library().lateral().is_none());
        assert_eq!(upper.compute_sampling(10), Err(Error::InfeasibleManeuver));
    }
    let far = State { x: reach + 0.001, y: 0.0, z: 1.0, yaw: 0.0, pitch: 0.0 };
    assert!(DubinsManeuver3D::get_upper_bound(origin(), far, 10.0, lims).length().is_finite());
}
