use flight_core::entity::Entity;
use flight_core::route::{point_reached_system, point_travelling_system, Route, Waypoint};
use flight_core::scalar::Scalar;
use flight_core::tracking::{Target, TargetEntity, Targeting};
use flight_core::vector::Vec3;

fn point(x: f32, y: f32, z: f32) -> Vec3 {
    Vec3::from_bits(x.to_bits(), y.to_bits(), z.to_bits())
}

fn distance_squared(x: f32) -> Scalar {
    Scalar::from_bits(x.to_bits())
}

fn patrol(stops: usize) -> Route {
    let mut waypoints = Vec::new();
    for i in 0..stops {
        waypoints.push(Waypoint::Target(point(i as f32, 0.0, 0.0)));
    }
    Route::from(waypoints)
}

#[test]
fn route_starts_at_first_waypoint() {
    let route = Route::from(vec![
        Waypoint::Target(point(1.0, 2.0, 3.0)),
        Waypoint::TargetEntity(Entity(7)),
    ]);
    assert_eq!(route.current_waypoint(), 0);
    assert_eq!(
        route.waypoints(),
        &vec![Waypoint::Target(point(1.0, 2.0, 3.0)), Waypoint::TargetEntity(Entity(7))]
    );
}

#[test]
fn waypoint_from_a_point_is_a_fixed_target() {
    let waypoint: Waypoint = point(1.0, -2.0, 0.5).into();
    assert_eq!(waypoint, Waypoint::Target(point(1.0, -2.0, 0.5)));
    assert_eq!(Waypoint::from(point(0.0, 0.0, 0.0)), Waypoint::Target(Vec3::zero()));
}

#[test]
fn waypoint_from_an_entity_is_a_tracked_target() {
    let waypoint: Waypoint = Entity(42).into();
    assert_eq!(waypoint, Waypoint::TargetEntity(Entity(42)));
    assert_eq!(Waypoint::from(Entity(0)), Waypoint::TargetEntity(Entity(0)));
}

#[test]
fn next_steps_through_the_waypoints_in_order() {
    let mut route = patrol(3);
    route.next();
    assert_eq!(route.current_waypoint(), 1);
    route.next();
    assert_eq!(route.current_waypoint(), 2);
    assert_eq!(route.waypoints().len(), 3);
}

#[test]
fn next_wraps_from_the_last_waypoint_to_the_first() {
    let mut route = patrol(3);
    route.set_waypoint(2);
    route.next();
    assert_eq!(route.current_waypoint(), 0);
}

#[test]
fn route_of_one_waypoint_stays_on_it() {
    let mut route = patrol(1);
    route.next();
    assert_eq!(route.current_waypoint(), 0);
    route.set_waypoint(9);
    assert_eq!(route.current_waypoint(), 0);
}

#[test]
fn advancing_once_per_waypoint_comes_back_round() {
    for stops in [1usize, 2, 3, 5, 7, 16] {
        for start in 0..stops {
            let mut route = patrol(stops);
            route.set_waypoint(start);
            for _ in 0..stops {
                route.next();
            }
            assert_eq!(route.current_waypoint(), start);
            assert_eq!(route.waypoints().len(), stops);
        }
    }
}

#[test]
fn advancing_short_of_a_lap_does_not_come_back() {
    let mut route = patrol(5);
    route.set_waypoint(3);
    for _ in 0..4 {
        route.next();
    }
    assert_eq!(route.current_waypoint(), 2);
}

#[test]
fn set_waypoint_counts_round_the_route() {
    let mut route = patrol(3);
    route.set_waypoint(1);
    assert_eq!(route.current_waypoint(), 1);
    route.set_waypoint(7);
    assert_eq!(route.current_waypoint(), 1);
    route.set_waypoint(3);
    assert_eq!(route.current_waypoint(), 0);
    route.set_waypoint(usize::MAX);
    assert_eq!(route.current_waypoint(), usize::MAX % 3);
}

#[test]
fn fleet_spreads_over_the_route() {
    for i in 0..10usize {
        let mut route = patrol(4);
        route.set_waypoint(i);
        assert_eq!(route.current_waypoint(), i % 4);
    }
}

#[test]
fn fixed_waypoint_becomes_the_target() {
    let route = Route::from(vec![Waypoint::Target(point(3.0, 4.0, 5.0))]);
    let bare = Targeting { target: None, target_entity: None };
    let goals = point_travelling_system(&route, bare);
    assert_eq!(
        goals,
        Targeting { target: Some(Target(point(3.0, 4.0, 5.0))), target_entity: None }
    );
}

#[test]
fn fixed_waypoint_overwrites_the_target() {
    let route = Route::from(vec![Waypoint::Target(point(3.0, 4.0, 5.0))]);
    let current = Targeting { target: Some(Target(point(9.0, 9.0, 9.0))), target_entity: None };
    let goals = point_travelling_system(&route, current);
    assert_eq!(goals.target, Some(Target(point(3.0, 4.0, 5.0))));
    assert_eq!(goals.target_entity, None);
}

#[test]
fn fixed_waypoint_stops_the_tracking() {
    let route = Route::from(vec![Waypoint::Target(point(3.0, 4.0, 5.0))]);
    let current = Targeting {
        target: Some(Target(point(9.0, 9.0, 9.0))),
        target_entity: Some(TargetEntity(Entity(11))),
    };
    let goals = point_travelling_system(&route, current);
    assert_eq!(goals.target, Some(Target(point(3.0, 4.0, 5.0))));
    assert_eq!(goals.target_entity, None);

    let current = Targeting { target: None, target_entity: Some(TargetEntity(Entity(11))) };
    let goals = point_travelling_system(&route, current);
    assert_eq!(goals.target, Some(Target(point(3.0, 4.0, 5.0))));
    assert_eq!(goals.target_entity, None);
}

#[test]
fn tracked_waypoint_becomes_the_tracked_entity() {
    let route = Route::from(vec![Waypoint::TargetEntity(Entity(5))]);
    let bare = Targeting { target: None, target_entity: None };
    let goals = point_travelling_system(&route, bare);
    assert_eq!(goals, Targeting { target: None, target_entity: Some(TargetEntity(Entity(5))) });
}

#[test]
fn tracked_waypoint_overwrites_the_tracked_entity_and_keeps_the_target() {
    let route = Route::from(vec![Waypoint::TargetEntity(Entity(5))]);
    let current = Targeting {
        target: Some(Target(point(9.0, 9.0, 9.0))),
        target_entity: Some(TargetEntity(Entity(11))),
    };
    let goals = point_travelling_system(&route, current);
    assert_eq!(goals.target, Some(Target(point(9.0, 9.0, 9.0))));
    assert_eq!(goals.target_entity, Some(TargetEntity(Entity(5))));
}

#[test]
fn goals_follow_the_route_as_it_advances() {
    let mut route = Route::from(vec![
        Waypoint::Target(point(1.0, 0.0, 0.0)),
        Waypoint::TargetEntity(Entity(8)),
        Waypoint::Target(point(0.0, 0.0, -1.0)),
    ]);
    let mut goals = Targeting { target: None, target_entity: None };
    goals = point_travelling_system(&route, goals);
    assert_eq!(goals, Targeting { target: Some(Target(point(1.0, 0.0, 0.0))), target_entity: None });
    route.next();
    goals = point_travelling_system(&route, goals);
    assert_eq!(
        goals,
        Targeting {
            target: Some(Target(point(1.0, 0.0, 0.0))),
            target_entity: Some(TargetEntity(Entity(8))),
        }
    );
    route.next();
    goals = point_travelling_system(&route, goals);
    assert_eq!(goals, Targeting { target: Some(Target(point(0.0, 0.0, -1.0))), target_entity: None });
}

#[test]
fn waypoint_within_reach_advances_the_route() {
    for d in [0.0f32, -0.0, 1.0, 4.0, 19.0, 19.999998] {
        let mut route = patrol(3);
        point_reached_system(&mut route, distance_squared(d));
        assert_eq!(route.current_waypoint(), 1, "{d:?}");
    }
}

#[test]
fn waypoint_out_of_reach_leaves_the_route() {
    for d in [20.0f32, 20.000002, 21.0, 400.0, f32::MAX, f32::INFINITY, f32::NAN] {
        let mut route = patrol(3);
        route.set_waypoint(2);
        point_reached_system(&mut route, distance_squared(d));
        assert_eq!(route.current_waypoint(), 2, "{d:?}");
    }
}

#[test]
fn reach_agrees_with_the_squared_distance() {
    let agent = [1.0f32, 2.0, 2.0];
    let near = [3.0f32, 4.0, 5.0];
    let far = [4.0f32, 5.0, 4.0];
    for (stop, reached) in [(near, true), (far, false)] {
        let d = (agent[0] - stop[0]) * (agent[0] - stop[0])
            + (agent[1] - stop[1]) * (agent[1] - stop[1])
            + (agent[2] - stop[2]) * (agent[2] - stop[2]);
        let mut route = patrol(2);
        point_reached_system(&mut route, distance_squared(d));
        assert_eq!(route.current_waypoint() == 1, reached);
        assert_eq!(d < 20.0, reached);
    }
}

#[test]
fn reached_last_waypoint_wraps_to_the_first() {
    let mut route = patrol(2);
    route.set_waypoint(1);
    point_reached_system(&mut route, distance_squared(0.5));
    assert_eq!(route.current_waypoint(), 0);
}
