//! Steering goals, and how the goal of an agent that tracks another is found.

use crate::entity::Entity;
use crate::physics::Velocity;
use crate::scalar::{whole, Scalar};
use crate::vector::Vec3;
use vstd::prelude::*;

verus! {

/// The agent whose expected position is the steering goal.
#[derive(Clone, Copy, Debug, PartialEq, Eq, Structural)]
pub struct TargetEntity(pub Entity);

/// The point in space that an agent steers for.
#[derive(Clone, Copy, Debug, PartialEq, Eq, Structural)]
pub struct Target(pub Vec3);

/// The steering goals that an agent carries: a point, a tracked agent, both
/// or neither.
#[derive(Clone, Copy, Debug, PartialEq, Eq, Structural)]
pub struct Targeting {
    pub target: Option<Target>,
    pub target_entity: Option<TargetEntity>,
}

/// What is known of a tracked agent when it can be found.
#[derive(Clone, Copy, Debug, PartialEq, Eq, Structural)]
pub struct Sighting {
    pub position: Vec3,
    pub velocity: Option<Velocity>,
}

/// Where a tracked agent is expected: at `position` displaced by `offset`.
#[derive(Clone, Copy, Debug, PartialEq, Eq, Structural)]
pub struct Lead {
    pub position: Vec3,
    pub offset: Vec3,
}

/// The lead that a sighting gives: one step of the sighted velocity ahead of
/// the sighted position, and no displacement where no velocity was sighted.
pub open spec fn lead_of(sighting: Sighting) -> Lead {
    Lead {
        position: sighting.position,
        offset: match sighting.velocity {
            Some(velocity) => velocity.0,
            None => Vec3 { x: Scalar { bits: 0 }, y: Scalar { bits: 0 }, z: Scalar { bits: 0 } },
        },
    }
}

/// Resolves the goal of an agent that tracks another.
///
/// With a sighting of the tracked agent, the goal is the sum of the two
/// vectors of the lead that is returned. Without one (the tracked agent is
/// gone) nothing is returned, and the goal that the agent already has stays
/// as it is.
pub fn targeting_entity_system(sighting: Option<Sighting>) -> (lead: Option<Lead>)
    ensures
        lead == match sighting {
            Some(s) => Some(lead_of(s)),
            None => None,
        },
{
    match sighting {
        Some(s) => {
            let offset = match s.velocity {
                Some(velocity) => velocity.0,
                None => Vec3::zero(),
            };
            Some(Lead { position: s.position, offset })
        },
        None => None,
    }
}

/// Whether a guidance law has a direction to steer in.
///
/// `error_length` is the length of the error vector. An error of length zero
/// has no direction, and one whose length is no number has none that can be
/// used: the commanded impulse is then zero.
pub fn has_heading(error_length: Scalar) -> (steer: bool)
    ensures
        steer == error_length@.is_finite_positive(),
{
    error_length.is_finite_positive()
}

/// Whether a rotation that turns the current orientation into the desired
/// one has to be negated to take the short way round.
///
/// `alignment` is the dot product of the desired and the current orientation.
/// An orientation and its negation stand for the same attitude; when the two
/// are not on the same side, the difference between them describes the long
/// way round.
pub fn takes_long_way(alignment: Scalar) -> (negate: bool)
    ensures
        negate == alignment@.le(whole(0)),
{
    alignment.le(Scalar::zero())
}

} // verus!
