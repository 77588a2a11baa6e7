//! Kinematic state, and the decisions of one integration step.

use crate::scalar::{lemma_unit_positive, lemma_wholes, unit, whole, Quantity, Scalar};
use crate::vector::Vec3;
use vstd::prelude::*;

verus! {

/// Translational velocity of an agent.
#[derive(Clone, Copy, Debug, PartialEq, Eq, Structural)]
pub struct Velocity(pub Vec3);

/// The share of a velocity that drag takes away in one step, for a given
/// product of drag coefficient and step length: the product held to the
/// range from zero to one.
pub open spec fn spec_damping_factor(drag_dt: Scalar) -> Scalar {
    if drag_dt@.lt(whole(0)) {
        Scalar { bits: 0 }
    } else if whole(1).lt(drag_dt@) {
        Scalar { bits: 0x3f80_0000 }
    } else {
        drag_dt
    }
}

/// The factor by which one step of drag pulls a velocity towards rest.
///
/// `drag_dt` is the product of the drag coefficient and the step length. A
/// product below zero gives zero and one above one gives one, so that drag
/// neither speeds an agent up nor reverses it; any other product is handed
/// back as it is, also one that is not a number.
pub fn damping_factor(drag_dt: Scalar) -> (factor: Scalar)
    ensures
        factor == spec_damping_factor(drag_dt),
        drag_dt@ != Quantity::Nan ==> whole(0).le(factor@) && factor@.le(whole(1)),
        drag_dt@ == Quantity::Nan ==> factor == drag_dt,
{
    let zero = Scalar::zero();
    let one = Scalar::one();
    if drag_dt.lt(zero) {
        zero
    } else if one.lt(drag_dt) {
        one
    } else {
        drag_dt
    }
}

/// A velocity component of `velocity` units after one step of drag in exact
/// arithmetic: interpolated towards rest by a factor of `factor` units. The
/// result is counted in units of a unit.
pub open spec fn damped(velocity: int, factor: int) -> int {
    velocity * (unit() - factor)
}

/// Drag never reverses a velocity: in exact arithmetic, a component that is
/// interpolated towards rest by the damping factor of any product that is a
/// number or an infinity ends between rest and where it was.
pub proof fn lemma_drag_never_reverses(velocity: int, drag_dt: Scalar)
    requires
        drag_dt@ != Quantity::Nan,
    ensures
        spec_damping_factor(drag_dt)@ is Number,
        0 <= spec_damping_factor(drag_dt)@.units() <= unit(),
        velocity >= 0 ==> 0 <= damped(velocity, spec_damping_factor(drag_dt)@.units()) <= velocity
            * unit(),
        velocity <= 0 ==> velocity * unit() <= damped(
            velocity,
            spec_damping_factor(drag_dt)@.units(),
        ) <= 0,
{
    lemma_wholes();
    lemma_unit_positive();
    let s = spec_damping_factor(drag_dt)@.units();
    assert(0 <= s <= unit());
    let rest = unit() - s;
    assert(0 <= rest <= unit());
    assert(velocity >= 0 ==> 0 <= velocity * rest <= velocity * unit()) by (nonlinear_arith)
        requires
            0 <= rest <= unit(),
    ;
    assert(velocity <= 0 ==> velocity * unit() <= velocity * rest <= 0) by (nonlinear_arith)
        requires
            0 <= rest <= unit(),
    ;
}

/// Whether an angular step of the given length turns the agent at all.
///
/// `step_length` is the length of the angular velocity scaled by the step
/// length. A step of length zero, or of a length that is not a number, has no
/// axis to turn about and is skipped.
pub fn rotation_due(step_length: Scalar) -> (due: bool)
    ensures
        due == whole(0).lt(step_length@),
{
    step_length.is_positive()
}

} // verus!
