//! Routes: ordered waypoints that an agent seeks one after the other, for
//! ever.

use crate::entity::Entity;
use crate::scalar::{lemma_wholes, whole, Scalar};
use crate::tracking::{Target, TargetEntity, Targeting};
use crate::vector::Vec3;
use vstd::prelude::*;

verus! {

/// One stop of a route: a fixed point, or wherever another agent is.
#[derive(Clone, Copy, Debug, PartialEq, Eq, Structural)]
pub enum Waypoint {
    TargetEntity(Entity),
    Target(Vec3),
}

impl From<Vec3> for Waypoint {
    fn from(vec: Vec3) -> (waypoint: Waypoint) {
        Waypoint::Target(vec)
    }
}

impl vstd::std_specs::convert::FromSpecImpl<Vec3> for Waypoint {
    open spec fn obeys_from_spec() -> bool {
        true
    }

    open spec fn from_spec(vec: Vec3) -> Waypoint {
        Waypoint::Target(vec)
    }
}

impl From<Entity> for Waypoint {
    fn from(ent: Entity) -> (waypoint: Waypoint) {
        Waypoint::TargetEntity(ent)
    }
}

impl vstd::std_specs::convert::FromSpecImpl<Entity> for Waypoint {
    open spec fn obeys_from_spec() -> bool {
        true
    }

    open spec fn from_spec(ent: Entity) -> Waypoint {
        Waypoint::TargetEntity(ent)
    }
}

/// The model of a route: its waypoints in order, and the position of the one
/// that is sought.
pub struct RouteView {
    pub current_waypoint: nat,
    pub waypoints: Seq<Waypoint>,
}

impl RouteView {
    /// A route seeks one of its waypoints; so it has at least one.
    pub open spec fn wf(self) -> bool {
        self.current_waypoint < self.waypoints.len()
    }

    /// The waypoint that is sought.
    pub open spec fn active(self) -> Waypoint {
        self.waypoints[self.current_waypoint as int]
    }

    /// The route that seeks the waypoint at position `id`, counted round the
    /// route as often as it takes.
    pub open spec fn set_waypoint(self, id: nat) -> RouteView {
        RouteView {
            current_waypoint: (id % self.waypoints.len()) as nat,
            waypoints: self.waypoints,
        }
    }

    /// The route that seeks the following waypoint, the first one after the
    /// last.
    pub open spec fn next(self) -> RouteView {
        self.set_waypoint(self.current_waypoint + 1)
    }

    /// The route after `steps` advances.
    pub open spec fn after(self, steps: nat) -> RouteView
        decreases steps,
    {
        if steps == 0 {
            self
        } else {
            self.after((steps - 1) as nat).next()
        }
    }
}

/// The squared distance below which a waypoint counts as reached.
pub open spec fn arrival_distance_squared() -> int {
    20
}

/// The goals of an agent once it seeks `waypoint`.
///
/// A tracked agent becomes the agent to track, and the point that is steered
/// for stays until the tracked agent is next found. A fixed point becomes the
/// point to steer for, and no agent is tracked any longer: tracking one would
/// overwrite the point.
pub open spec fn goals_for(waypoint: Waypoint, current: Targeting) -> Targeting {
    match waypoint {
        Waypoint::TargetEntity(entity) => Targeting {
            target: current.target,
            target_entity: Some(TargetEntity(entity)),
        },
        Waypoint::Target(point) => Targeting { target: Some(Target(point)), target_entity: None },
    }
}

/// An endless patrol over a list of waypoints.
#[derive(Debug)]
pub struct Route {
    current_waypoint: usize,
    waypoints: Vec<Waypoint>,
}

impl View for Route {
    type V = RouteView;

    closed spec fn view(&self) -> RouteView {
        RouteView { current_waypoint: self.current_waypoint as nat, waypoints: self.waypoints@ }
    }
}

impl Route {
    #[verifier::type_invariant]
    spec fn inv(self) -> bool {
        self.current_waypoint < self.waypoints@.len()
    }

    /// The route over `waypoints` that seeks the first of them.
    pub fn from(waypoints: Vec<Waypoint>) -> (route: Route)
        requires
            waypoints@.len() > 0,
        ensures
            route@ == (RouteView { current_waypoint: 0, waypoints: waypoints@ }),
            route@.wf(),
    {
        Route { current_waypoint: 0, waypoints }
    }

    /// Advances to the following waypoint, and from the last to the first.
    pub fn next(&mut self)
        ensures
            old(self)@.wf(),
            final(self)@ == old(self)@.next(),
            final(self)@.wf(),
    {
        proof {
            use_type_invariant(&*self);
        }
        let len: usize = self.waypoints.len();
        self.current_waypoint = (self.current_waypoint + 1) % len;
    }

    /// Seeks the waypoint at position `id`, counted round the route as often
    /// as it takes.
    pub fn set_waypoint(&mut self, id: usize)
        ensures
            old(self)@.wf(),
            final(self)@ == old(self)@.set_waypoint(id as nat),
            final(self)@.wf(),
    {
        proof {
            use_type_invariant(&*self);
        }
        self.current_waypoint = id % self.waypoints.len();
    }

    /// The position of the waypoint that is sought.
    pub fn current_waypoint(&self) -> (index: usize)
        ensures
            index == self@.current_waypoint,
            self@.wf(),
    {
        proof {
            use_type_invariant(self);
        }
        self.current_waypoint
    }

    /// The waypoints, in the order in which they are sought.
    pub fn waypoints(&self) -> (waypoints: &Vec<Waypoint>)
        ensures
            waypoints@ == self@.waypoints,
            self@.wf(),
    {
        proof {
            use_type_invariant(self);
        }
        &self.waypoints
    }
}

/// Sets the goals of an agent to the waypoint that its route seeks.
///
/// `current` holds the goals that the agent carries; the result holds those
/// that it carries afterwards, as `goals_for` describes them.
pub fn point_travelling_system(route: &Route, current: Targeting) -> (goals: Targeting)
    ensures
        goals == goals_for(route@.active(), current),
{
    let waypoints = route.waypoints();
    match waypoints[route.current_waypoint()] {
        Waypoint::TargetEntity(waypoint_target) => Targeting {
            target: current.target,
            target_entity: Some(TargetEntity(waypoint_target)),
        },
        Waypoint::Target(waypoint_position) => Targeting {
            target: Some(Target(waypoint_position)),
            target_entity: None,
        },
    }
}

/// The bit pattern of twenty.
const ARRIVAL_DISTANCE_SQUARED_BITS: u32 = 0x41a0_0000;

/// Advances the route when its agent has reached the point it steers for.
///
/// `distance_squared` is the squared distance between the agent and that
/// point. The route advances when it is below `arrival_distance_squared()`,
/// and stays as it is otherwise, also when the distance is not a number.
pub fn point_reached_system(route: &mut Route, distance_squared: Scalar)
    ensures
        final(route)@ == if distance_squared@.lt(whole(arrival_distance_squared())) {
            old(route)@.next()
        } else {
            old(route)@
        },
        final(route)@.wf(),
{
    let threshold = Scalar::from_bits(ARRIVAL_DISTANCE_SQUARED_BITS);
    proof {
        lemma_wholes();
        use_type_invariant(&*route);
    }
    if distance_squared.lt(threshold) {
        route.next();
    }
}

/// However often a route has advanced, it seeks the waypoint that many
/// positions further round the route.
pub proof fn lemma_after_steps(route: RouteView, steps: nat)
    requires
        route.wf(),
    ensures
        route.after(steps).waypoints == route.waypoints,
        route.after(steps).current_waypoint == (route.current_waypoint + steps)
            % route.waypoints.len(),
        route.after(steps).wf(),
    decreases steps,
{
    let n = route.waypoints.len() as int;
    if steps == 0 {
        vstd::arithmetic::div_mod::lemma_small_mod(route.current_waypoint, route.waypoints.len());
    } else {
        lemma_after_steps(route, (steps - 1) as nat);
        vstd::arithmetic::div_mod::lemma_add_mod_noop(
            route.current_waypoint + steps - 1,
            1,
            n,
        );
        vstd::arithmetic::div_mod::lemma_mod_twice(route.current_waypoint + steps - 1, n);
        vstd::arithmetic::div_mod::lemma_add_mod_noop(
            (route.current_waypoint + steps - 1) % n,
            1,
            n,
        );
    }
}

/// A route that has advanced as often as it has waypoints seeks the waypoint
/// that it sought at first.
pub proof fn lemma_full_lap(route: RouteView)
    requires
        route.wf(),
    ensures
        route.after(route.waypoints.len()) == route,
{
    let n = route.waypoints.len();
    lemma_after_steps(route, n);
    vstd::arithmetic::div_mod::lemma_mod_add_multiples_vanish(route.current_waypoint as int, n as int);
    vstd::arithmetic::div_mod::lemma_small_mod(route.current_waypoint, n);
}

} // verus!
