//! Dubins maneuvers in space: the decisions, verified.
//!
//! A Dubins maneuver joins two poses by turns of bounded curvature and a
//! straight segment. In space it is made of two planar paths, a horizontal
//! one and a vertical one whose pitch stays between two limits. Finding them
//! takes trigonometry, and it takes decisions: which path families exist for
//! a pair of poses, which candidate is the shortest that is allowed, whether
//! a horizontal radius leaves a valid vertical path, which radius to try
//! next, and where the samples of a finished maneuver lie.
//!
//! This crate holds the decisions. Every quantity is a [`scalar::Scalar`],
//! the bit pattern of a binary64 value. What can be done to such values
//! without rounding is done here and proved against the numbers that the
//! patterns denote: comparing them, doubling them, taking the whole turns out
//! of an angle. What rounds stays with the caller, who hands in what the
//! formulas give and gets back what follows from it.

pub mod dubins2d;
pub mod dubins3d;
pub mod scalar;
pub mod vertical;

pub use crate::dubins3d::DubinsManeuver3D;

use vstd::prelude::*;
use crate::scalar::{
    Number,
    Scalar,
    lemma_named_values_are_ordered,
    lemma_remainder_is_within_the_divisor,
    number_abs,
    number_le,
    number_lt,
    number_rem,
};

verus! {

/// A pose in space: position, yaw and pitch.
#[derive(Copy, Clone)]
pub struct State {
    pub x: Scalar,
    pub y: Scalar,
    pub z: Scalar,
    pub yaw: Scalar,
    pub pitch: Scalar,
}

/// What is left to do with an angle after its whole turns are taken out.
#[derive(Copy, Clone)]
pub enum Normalized {
    /// Nothing: this is the angle between zero and a full turn.
    Ready(Scalar),
    /// This remainder is below zero: a full turn must be added to it.
    Lift(Scalar),
}

/// Whether a number lies between zero and a full turn, zero included.
pub open spec fn within_a_turn(angle: Number) -> bool {
    number_le(Scalar::spec_zero()@, angle) && number_lt(angle, Scalar::spec_two_pi()@)
}

/// The angle between zero and a full turn that differs from `th` by whole
/// turns.
///
/// The whole turns are taken out exactly, which leaves a remainder with the
/// sign of `th`. A remainder that is not below zero is the answer. To a
/// remainder below zero a full turn has to be added, which rounds: that sum
/// is left to the caller. An angle that lies between zero and a full turn
/// comes back as it is.
pub fn mod2pi(th: Scalar) -> (r: Normalized)
    ensures
        match r {
            Normalized::Ready(angle) => {
                &&& angle@ == number_rem(th@, Scalar::spec_two_pi()@)
                &&& !number_lt(angle@, Scalar::spec_zero()@)
            },
            Normalized::Lift(remainder) => {
                &&& remainder@ == number_rem(th@, Scalar::spec_two_pi()@)
                &&& number_lt(remainder@, Scalar::spec_zero()@)
            },
        },
        th@ is Finite ==> match r {
            Normalized::Ready(angle) => within_a_turn(angle@),
            Normalized::Lift(remainder) => number_lt(
                number_abs(remainder@),
                Scalar::spec_two_pi()@,
            ),
        },
        within_a_turn(th@) ==> r == Normalized::Ready(th),
{
    let remainder = th.rem(Scalar::two_pi());
    proof {
        lemma_named_values_are_ordered();
        if th@ is Finite {
            lemma_remainder_is_within_the_divisor(th@, Scalar::spec_two_pi()@);
        }
    }
    if remainder.lt(Scalar::zero()) {
        Normalized::Lift(remainder)
    } else {
        Normalized::Ready(remainder)
    }
}

} // verus!
