//! How hard an agent may push: the thrust limits of its axes, and the
//! largest magnitude along a direction that keeps every axis within them.

use crate::scalar::{lemma_neg, lemma_unit_positive, lemma_wholes, unit, whole, Scalar};
use crate::vector::Vec3;
use vstd::prelude::*;

verus! {

/// The largest acceleration that an agent reaches along each of its own axes:
/// from `min` to `max` in translation, and up to `rot` either way in
/// rotation.
#[derive(Clone, Copy, Debug, PartialEq, Eq, Structural)]
pub struct ThrustCharacteristics {
    pub min: Vec3,
    pub max: Vec3,
    pub rot: Vec3,
}

/// A lower and an upper limit for each axis.
#[derive(Clone, Copy, Debug, PartialEq, Eq, Structural)]
pub struct Limits {
    pub lower: Vec3,
    pub upper: Vec3,
}

/// At most one quantity for each axis. An axis without one imposes no
/// constraint.
#[derive(Clone, Copy, Debug, PartialEq, Eq, Structural)]
pub struct PerAxis {
    pub x: Option<Scalar>,
    pub y: Option<Scalar>,
    pub z: Option<Scalar>,
}

/// The limit that a push meets on one axis: the upper one where the
/// direction points up the axis, the lower one where it points down, and none
/// where it has no share in the axis.
pub open spec fn limit_toward(lower: Scalar, upper: Scalar, direction: Scalar) -> Option<Scalar> {
    if whole(0).lt(direction@) {
        Some(upper)
    } else if direction@.lt(whole(0)) {
        Some(lower)
    } else {
        None
    }
}

/// Whether an axis constrains a push: it has a scale factor, and the factor
/// is a number above zero.
pub open spec fn constrains(factor: Option<Scalar>) -> bool {
    factor matches Some(f) && f@.is_finite_positive()
}

/// Whether `magnitude` keeps the axis with the given scale factor within its
/// limit.
pub open spec fn within(magnitude: Scalar, factor: Option<Scalar>) -> bool {
    factor matches Some(f) ==> (f@.is_finite_positive() ==> magnitude@.le(f@))
}

/// Whether `magnitude` is what an impulse of squared length `length_squared`
/// is turned into under the scale factors `factors`: the smallest factor
/// among those that constrain, and none when the impulse has no length that
/// is a number above zero or when no axis constrains it.
pub open spec fn is_binding(
    length_squared: Scalar,
    factors: PerAxis,
    magnitude: Option<Scalar>,
) -> bool {
    &&& magnitude is None <==> !length_squared@.is_finite_positive() || !(constrains(factors.x)
        || constrains(factors.y) || constrains(factors.z))
    &&& magnitude matches Some(m) ==> {
        &&& m@.is_finite_positive()
        &&& magnitude == factors.x || magnitude == factors.y || magnitude == factors.z
        &&& within(m, factors.x)
        &&& within(m, factors.y)
        &&& within(m, factors.z)
    }
}

/// Whether `factor` is exactly the quotient of `limit` and `share`.
pub open spec fn is_quotient(factor: Scalar, limit: Scalar, share: Scalar) -> bool {
    &&& factor@ is Number
    &&& limit@ is Number
    &&& share@ is Number
    &&& factor@.units() * share@.units() == limit@.units() * unit()
}

/// Whether `factor` is the scale factor of an axis in exact arithmetic: the
/// quotient of the limit that the push meets and the direction's share in
/// the axis, above zero; and none where the direction has no share in it.
pub open spec fn is_exact_factor(
    factor: Option<Scalar>,
    lower: Scalar,
    upper: Scalar,
    share: Scalar,
) -> bool {
    match limit_toward(lower, upper, share) {
        Some(limit) => factor matches Some(f) && f@.is_finite_positive() && is_quotient(
            f,
            limit,
            share,
        ),
        None => factor is None,
    }
}

/// Whether a push of `magnitude` along a direction with the given share in
/// an axis stays within the limits of that axis, in exact arithmetic.
pub open spec fn axis_within(magnitude: Scalar, share: Scalar, lower: Scalar, upper: Scalar) -> bool {
    lower@.units() * unit() <= magnitude@.units() * share@.units() <= upper@.units() * unit()
}

/// Whether a push of `magnitude` along a direction with the given share in
/// an axis drives that axis exactly to the limit it meets, in exact
/// arithmetic.
pub open spec fn axis_at_limit(magnitude: Scalar, share: Scalar, lower: Scalar, upper: Scalar) -> bool {
    limit_toward(lower, upper, share) matches Some(limit) && magnitude@.units() * share@.units()
        == limit@.units() * unit()
}

impl Limits {
    /// Each axis is limited by numbers, from at most zero to at least zero.
    pub open spec fn wf(self) -> bool {
        &&& self.lower.x@ is Number && self.lower.x@.le(whole(0))
        &&& self.lower.y@ is Number && self.lower.y@.le(whole(0))
        &&& self.lower.z@ is Number && self.lower.z@.le(whole(0))
        &&& self.upper.x@ is Number && whole(0).le(self.upper.x@)
        &&& self.upper.y@ is Number && whole(0).le(self.upper.y@)
        &&& self.upper.z@ is Number && whole(0).le(self.upper.z@)
    }
}

/// One axis under a push: where the scale factor of the axis is exact and
/// the magnitude does not exceed it, the push stays within the limits of the
/// axis; and where the magnitude is that factor, the push drives the axis to
/// the limit it meets.
pub proof fn lemma_axis_within_limits(
    magnitude: Scalar,
    factor: Option<Scalar>,
    lower: Scalar,
    upper: Scalar,
    share: Scalar,
)
    requires
        lower@ is Number && lower@.le(whole(0)),
        upper@ is Number && whole(0).le(upper@),
        share@ is Number,
        magnitude@.is_finite_positive(),
        is_exact_factor(factor, lower, upper, share),
        within(magnitude, factor),
    ensures
        axis_within(magnitude, share, lower, upper),
        factor == Some(magnitude) ==> axis_at_limit(magnitude, share, lower, upper),
{
    lemma_unit_positive();
    let m = magnitude@.units();
    let d = share@.units();
    let lo = lower@.units();
    let hi = upper@.units();
    let u = unit();
    assert(lo * u <= 0 <= hi * u) by (nonlinear_arith)
        requires
            lo <= 0 <= hi,
            u > 0,
    ;
    match limit_toward(lower, upper, share) {
        Some(limit) => {
            let f = factor->0@.units();
            assert(0 < m <= f);
            if d > 0 {
                assert(0 <= m * d <= f * d) by (nonlinear_arith)
                    requires
                        0 < m <= f,
                        d > 0,
                ;
            } else {
                assert(d < 0);
                assert(f * d <= m * d <= 0) by (nonlinear_arith)
                    requires
                        0 < m <= f,
                        d < 0,
                ;
            }
        },
        None => {
            assert(d == 0);
            assert(m * d == 0) by (nonlinear_arith)
                requires
                    d == 0,
            ;
        },
    }
}

/// The converter respects the limits: where the scale factors are exact, a
/// push of the binding magnitude along the direction stays within the limits
/// of every axis, and drives at least one axis exactly to its limit.
pub proof fn lemma_binding_keeps_limits(
    limits: Limits,
    direction: Vec3,
    length_squared: Scalar,
    factors: PerAxis,
    magnitude: Scalar,
)
    requires
        limits.wf(),
        direction.x@ is Number && direction.y@ is Number && direction.z@ is Number,
        is_exact_factor(factors.x, limits.lower.x, limits.upper.x, direction.x),
        is_exact_factor(factors.y, limits.lower.y, limits.upper.y, direction.y),
        is_exact_factor(factors.z, limits.lower.z, limits.upper.z, direction.z),
        is_binding(length_squared, factors, Some(magnitude)),
    ensures
        axis_within(magnitude, direction.x, limits.lower.x, limits.upper.x),
        axis_within(magnitude, direction.y, limits.lower.y, limits.upper.y),
        axis_within(magnitude, direction.z, limits.lower.z, limits.upper.z),
        axis_at_limit(magnitude, direction.x, limits.lower.x, limits.upper.x) || axis_at_limit(
            magnitude,
            direction.y,
            limits.lower.y,
            limits.upper.y,
        ) || axis_at_limit(magnitude, direction.z, limits.lower.z, limits.upper.z),
{
    lemma_axis_within_limits(magnitude, factors.x, limits.lower.x, limits.upper.x, direction.x);
    lemma_axis_within_limits(magnitude, factors.y, limits.lower.y, limits.upper.y, direction.y);
    lemma_axis_within_limits(magnitude, factors.z, limits.lower.z, limits.upper.z, direction.z);
}

impl ThrustCharacteristics {
    /// All limits are numbers. Translation is limited from at most zero to
    /// at least zero on each axis, and rotation by more than zero.
    pub open spec fn wf(self) -> bool {
        &&& (Limits { lower: self.min, upper: self.max }).wf()
        &&& self.rot.x@ is Number && whole(0).lt(self.rot.x@)
        &&& self.rot.y@ is Number && whole(0).lt(self.rot.y@)
        &&& self.rot.z@ is Number && whole(0).lt(self.rot.z@)
    }

    /// The limits of translation: `min` and `max`.
    pub fn linear_limits(&self) -> (limits: Limits)
        ensures
            limits == (Limits { lower: self.min, upper: self.max }),
            self.wf() ==> limits.wf(),
    {
        Limits { lower: self.min, upper: self.max }
    }

    /// The limits of rotation: `rot` either way.
    pub fn angular_limits(&self) -> (limits: Limits)
        ensures
            limits.upper == self.rot,
            limits.lower.x == self.rot.x.spec_neg(),
            limits.lower.y == self.rot.y.spec_neg(),
            limits.lower.z == self.rot.z.spec_neg(),
            self.wf() ==> limits.wf(),
    {
        proof {
            lemma_neg(self.rot.x);
            lemma_neg(self.rot.y);
            lemma_neg(self.rot.z);
        }
        Limits { lower: self.rot.neg(), upper: self.rot }
    }
}

impl Default for ThrustCharacteristics {
    /// An agent that pushes hardest backwards along its second axis: from -1
    /// to 1 on the first and third axis, from -5 to 2 on the second, and up
    /// to 1 in rotation about each.
    fn default() -> (thrust: ThrustCharacteristics)
        ensures
            thrust.min.x@ == whole(-1) && thrust.min.y@ == whole(-5) && thrust.min.z@ == whole(-1),
            thrust.max.x@ == whole(1) && thrust.max.y@ == whole(2) && thrust.max.z@ == whole(1),
            thrust.rot.x@ == whole(1) && thrust.rot.y@ == whole(1) && thrust.rot.z@ == whole(1),
            thrust.wf(),
    {
        proof {
            lemma_wholes();
            lemma_unit_positive();
        }
        ThrustCharacteristics {
            min: Vec3::from_bits(0xbf80_0000, 0xc0a0_0000, 0xbf80_0000),
            max: Vec3::from_bits(0x3f80_0000, 0x4000_0000, 0x3f80_0000),
            rot: Vec3::from_bits(0x3f80_0000, 0x3f80_0000, 0x3f80_0000),
        }
    }
}

fn limit_on_axis(lower: Scalar, upper: Scalar, direction: Scalar) -> (limit: Option<Scalar>)
    ensures
        limit == limit_toward(lower, upper, direction),
{
    if direction.is_positive() {
        Some(upper)
    } else if direction.is_negative() {
        Some(lower)
    } else {
        None
    }
}

impl Limits {
    /// The limit that a push along `direction` meets on each axis.
    ///
    /// The quotient of each limit and the direction's share in its axis is
    /// the scale factor that drives that axis exactly to its limit.
    pub fn toward(&self, direction: &Vec3) -> (limits: PerAxis)
        ensures
            limits.x == limit_toward(self.lower.x, self.upper.x, direction.x),
            limits.y == limit_toward(self.lower.y, self.upper.y, direction.y),
            limits.z == limit_toward(self.lower.z, self.upper.z, direction.z),
    {
        PerAxis {
            x: limit_on_axis(self.lower.x, self.upper.x, direction.x),
            y: limit_on_axis(self.lower.y, self.upper.y, direction.y),
            z: limit_on_axis(self.lower.z, self.upper.z, direction.z),
        }
    }
}

fn tighter(best: Option<Scalar>, factor: Option<Scalar>) -> (r: Option<Scalar>)
    requires
        best matches Some(b) ==> b@.is_finite_positive(),
    ensures
        r is None <==> best is None && !constrains(factor),
        r matches Some(m) ==> {
            &&& m@.is_finite_positive()
            &&& r == best || r == factor
            &&& within(m, best)
            &&& within(m, factor)
        },
{
    match factor {
        Some(f) => {
            if f.is_finite_positive() {
                match best {
                    Some(b) => {
                        if f.lt(b) {
                            factor
                        } else {
                            best
                        }
                    },
                    None => factor,
                }
            } else {
                best
            }
        },
        None => best,
    }
}

/// The magnitude of the acceleration that an impulse is turned into.
///
/// `length_squared` is the squared length of the impulse, and `factors` holds
/// for each axis the scale factor that drives it to its limit. The result is
/// the smallest factor among those that are numbers above zero: the axis
/// that binds. There is none, and the acceleration is zero, when the impulse
/// has no length that is a number above zero, or when no axis constrains it.
pub fn binding_magnitude(length_squared: Scalar, factors: PerAxis) -> (magnitude: Option<Scalar>)
    ensures
        is_binding(length_squared, factors, magnitude),
        !length_squared@.is_finite_positive() ==> magnitude is None,
{
    if !length_squared.is_finite_positive() {
        return None;
    }
    let on_x = tighter(None, factors.x);
    let on_xy = tighter(on_x, factors.y);
    tighter(on_xy, factors.z)
}

} // verus!
