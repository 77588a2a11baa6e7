//! Three-dimensional vectors of single-precision quantities.

use crate::scalar::{whole, Scalar};
use vstd::prelude::*;

verus! {

/// A vector with three components.
#[derive(Clone, Copy, Debug, PartialEq, Eq, Structural)]
pub struct Vec3 {
    pub x: Scalar,
    pub y: Scalar,
    pub z: Scalar,
}

impl Vec3 {
    /// The vector with the given components.
    pub fn new(x: Scalar, y: Scalar, z: Scalar) -> (v: Vec3)
        ensures
            v == (Vec3 { x, y, z }),
    {
        Vec3 { x, y, z }
    }

    /// The vector whose components have the given bit patterns.
    pub fn from_bits(x: u32, y: u32, z: u32) -> (v: Vec3)
        ensures
            v.x.bits == x,
            v.y.bits == y,
            v.z.bits == z,
    {
        Vec3 { x: Scalar::from_bits(x), y: Scalar::from_bits(y), z: Scalar::from_bits(z) }
    }

    /// The bit patterns of the three components, in order.
    pub fn to_bits(self) -> (bits: (u32, u32, u32))
        ensures
            bits.0 == self.x.bits,
            bits.1 == self.y.bits,
            bits.2 == self.z.bits,
    {
        (self.x.to_bits(), self.y.to_bits(), self.z.to_bits())
    }

    /// The vector of three zeros, each with a clear sign bit.
    pub fn zero() -> (v: Vec3)
        ensures
            v.x.bits == 0,
            v.y.bits == 0,
            v.z.bits == 0,
            v.x@ == whole(0),
            v.y@ == whole(0),
            v.z@ == whole(0),
    {
        Vec3 { x: Scalar::zero(), y: Scalar::zero(), z: Scalar::zero() }
    }

    /// The vector of opposite components.
    pub fn neg(self) -> (v: Vec3)
        ensures
            v == (Vec3 { x: self.x.spec_neg(), y: self.y.spec_neg(), z: self.z.spec_neg() }),
    {
        Vec3 { x: self.x.neg(), y: self.y.neg(), z: self.z.neg() }
    }
}

} // verus!
