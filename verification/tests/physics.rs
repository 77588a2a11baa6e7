use flight_core::physics::{damping_factor, rotation_due};
use flight_core::scalar::Scalar;

fn quantity(x: f32) -> Scalar {
    Scalar::from_bits(x.to_bits())
}

fn number(s: Scalar) -> f32 {
    f32::from_bits(s.to_bits())
}

fn lerp_towards_rest(v: f32, factor: f32) -> f32 {
    v + (0.0 - v) * factor
}

#[test]
fn damping_factor_keeps_a_product_within_range() {
    assert_eq!(damping_factor(quantity(0.0)), quantity(0.0));
    assert_eq!(damping_factor(quantity(0.016)), quantity(0.016));
    assert_eq!(damping_factor(quantity(0.5)), quantity(0.5));
    assert_eq!(damping_factor(quantity(1.0)), quantity(1.0));
}

#[test]
fn damping_factor_stops_at_one() {
    assert_eq!(damping_factor(quantity(1.0000001)), quantity(1.0));
    assert_eq!(damping_factor(quantity(1.5)), quantity(1.0));
    assert_eq!(damping_factor(quantity(7.5)), quantity(1.0));
    assert_eq!(damping_factor(quantity(f32::INFINITY)), quantity(1.0));
}

#[test]
fn damping_factor_stops_at_zero() {
    assert_eq!(damping_factor(quantity(-0.25)), quantity(0.0));
    assert_eq!(damping_factor(quantity(-3.0)), quantity(0.0));
    assert_eq!(damping_factor(quantity(f32::NEG_INFINITY)), quantity(0.0));
    assert_eq!(damping_factor(quantity(-f32::from_bits(1))), quantity(0.0));
}

#[test]
fn damping_factor_hands_back_what_is_within_range() {
    assert_eq!(damping_factor(quantity(-0.0)), quantity(-0.0));
    assert_eq!(damping_factor(quantity(f32::NAN)), quantity(f32::NAN));
    assert!(number(damping_factor(quantity(f32::NAN))).is_nan());
}

#[test]
fn damping_factor_agrees_with_clamping() {
    let products = [
        -1.0e30, -2.0, -1.0, -0.5, -0.0, 0.0, 1.0e-40, 0.016, 0.3, 0.5, 0.99999994, 1.0, 1.0000001,
        2.0, 50.0, 1.0e30,
    ];
    for p in products {
        let expected: f32 = f32::clamp(p, 0.0, 1.0);
        assert_eq!(damping_factor(quantity(p)).to_bits(), expected.to_bits(), "{p:?}");
    }
}

#[test]
fn drag_never_reverses_velocity() {
    let velocities = [3.0f32, -2.0, 0.0, 1.0e-3, -1.0e3, 0.25];
    let products = [0.0f32, 0.016, 0.3, 0.5, 1.0, 1.0000001, 7.5, -2.0, f32::INFINITY];
    for v in velocities {
        for p in products {
            let factor = number(damping_factor(quantity(p)));
            let after = lerp_towards_rest(v, factor);
            assert!(after.abs() <= v.abs(), "{v:?} by {p:?} gives {after:?}");
            assert!(after == 0.0 || after.signum() == v.signum(), "{v:?} by {p:?} gives {after:?}");
        }
    }
}

#[test]
fn drag_at_half_halves_velocity() {
    let factor = number(damping_factor(quantity(1.0 * 0.5)));
    assert_eq!(lerp_towards_rest(8.0, factor), 4.0);
    assert_eq!(lerp_towards_rest(-6.0, factor), -3.0);
}

#[test]
fn undamped_product_would_reverse_velocity() {
    assert_eq!(lerp_towards_rest(2.0, 1.5), -1.0);
    let factor = number(damping_factor(quantity(1.5)));
    assert_eq!(lerp_towards_rest(2.0, factor), 0.0);
}

#[test]
fn rotation_is_due_for_a_step_with_length() {
    assert!(rotation_due(quantity(0.016)));
    assert!(rotation_due(quantity(3.0)));
    assert!(rotation_due(quantity(f32::from_bits(1))));
    assert!(rotation_due(quantity(f32::INFINITY)));
}

#[test]
fn rotation_is_skipped_for_a_step_without_length() {
    assert!(!rotation_due(quantity(0.0)));
    assert!(!rotation_due(quantity(-0.0)));
    assert!(!rotation_due(quantity(f32::NAN)));
    assert!(!rotation_due(quantity(-1.0)));
}
