//! Cameras that follow an agent: which agent a camera follows, and when two
//! agents lay claim to one camera.

use crate::entity::Entity;
use crate::scalar::Scalar;
use vstd::prelude::*;

verus! {

/// The claim of an agent to be followed by `camera`, from `height` above.
#[derive(Clone, Copy, Debug, PartialEq, Eq, Structural)]
pub struct TrackedByCamera {
    pub camera: Entity,
    pub height: Scalar,
}

/// Two claims to one camera, by their positions among the claims.
#[derive(Clone, Copy, Debug, PartialEq, Eq, Structural)]
pub struct CameraConflict {
    pub camera: Entity,
    pub first: usize,
    pub second: usize,
}

/// Whether none of the claims from position `from` up to `to` is to `camera`.
pub open spec fn unclaimed(
    trackers: Seq<TrackedByCamera>,
    camera: Entity,
    from: int,
    to: int,
) -> bool {
    forall|i: int| from <= i < to && 0 <= i < trackers.len() ==> (#[trigger] trackers[i]).camera != camera
}

/// The rules by which cameras follow agents.
#[derive(Clone, Copy, Debug)]
pub struct TrackingCameraPlugin;

impl TrackingCameraPlugin {
    /// Finds the claim that `camera` follows.
    ///
    /// A camera that nobody claims follows nothing. A camera with one claim
    /// follows it. Two claims to one camera are a conflict: the first two are
    /// reported, and the camera follows neither.
    pub fn tracker_of(camera: Entity, trackers: &Vec<TrackedByCamera>) -> (found: Result<
        Option<usize>,
        CameraConflict,
    >)
        ensures
            match found {
                Ok(None) => unclaimed(trackers@, camera, 0, trackers@.len() as int),
                Ok(Some(i)) => {
                    &&& i < trackers@.len()
                    &&& trackers@[i as int].camera == camera
                    &&& unclaimed(trackers@, camera, 0, i as int)
                    &&& unclaimed(trackers@, camera, i + 1, trackers@.len() as int)
                },
                Err(conflict) => {
                    &&& conflict.camera == camera
                    &&& conflict.first < conflict.second < trackers@.len()
                    &&& trackers@[conflict.first as int].camera == camera
                    &&& trackers@[conflict.second as int].camera == camera
                    &&& unclaimed(trackers@, camera, 0, conflict.first as int)
                    &&& unclaimed(trackers@, camera, conflict.first + 1, conflict.second as int)
                },
            },
    {
        let mut first: Option<usize> = None;
        let mut i: usize = 0;
        while i < trackers.len()
            invariant
                i <= trackers@.len(),
                match first {
                    None => unclaimed(trackers@, camera, 0, i as int),
                    Some(f) => {
                        &&& f < i
                        &&& trackers@[f as int].camera == camera
                        &&& unclaimed(trackers@, camera, 0, f as int)
                        &&& unclaimed(trackers@, camera, f + 1, i as int)
                    },
                },
            decreases trackers@.len() - i,
        {
            if trackers[i].camera == camera {
                match first {
                    Some(f) => {
                        return Err(CameraConflict { camera, first: f, second: i });
                    },
                    None => {
                        first = Some(i);
                    },
                }
            }
            i = i + 1;
        }
        Ok(first)
    }
}

} // verus!
