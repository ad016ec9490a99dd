use jgo::{clamp, move_toward, Jumpgate, RingTurn, DEFAULT_RING_ACCELERATION};

const SECOND: u64 = 1_000_000;

#[test]
fn jumpgate_ramps_without_overshoot() {
    let mut g = Jumpgate::new(2_000_000);
    g.set_target_inner_velocity(10_000_000);
    g.handle_rotation(SECOND);
    assert_eq!(g.inner_velocity(), 2_000_000);
    for _ in 0..4 {
        g.handle_rotation(SECOND);
    }
    assert_eq!(g.inner_velocity(), 10_000_000);
    for _ in 0..3 {
        g.handle_rotation(SECOND);
        assert_eq!(g.inner_velocity(), 10_000_000);
    }
    assert_eq!(g.outer_velocity(), 0);
}

#[test]
fn jumpgate_last_step_lands_on_target() {
    let mut g = Jumpgate::new(2_000_000);
    g.set_target_outer_velocity(3_000_000);
    g.handle_rotation(SECOND);
    assert_eq!(g.outer_velocity(), 2_000_000);
    g.handle_rotation(SECOND);
    assert_eq!(g.outer_velocity(), 3_000_000);
}

#[test]
fn jumpgate_slows_down_toward_lower_target() {
    let mut g = Jumpgate::new(2_000_000);
    g.set_target_inner_velocity(5_000_000);
    for _ in 0..3 {
        g.handle_rotation(SECOND);
    }
    assert_eq!(g.inner_velocity(), 5_000_000);
    g.set_target_inner_velocity(0);
    g.handle_rotation(SECOND);
    assert_eq!(g.inner_velocity(), 3_000_000);
}

#[test]
fn jumpgate_turns_only_forward() {
    let mut g = Jumpgate::new(2_000_000);
    g.set_target_inner_velocity(4_000_000);
    g.set_target_outer_velocity(-4_000_000);
    let t = g.handle_rotation(500_000);
    assert_eq!(g.inner_velocity(), 1_000_000);
    assert_eq!(g.outer_velocity(), -1_000_000);
    assert_eq!(t, RingTurn { inner: 500_000, outer: 0 });
}

#[test]
fn jumpgate_default_acceleration_per_frame() {
    let mut g = Jumpgate::new(DEFAULT_RING_ACCELERATION);
    assert_eq!(g.ring_acceleration(), 314_159);
    g.set_target_inner_velocity(1_000_000);
    let t = g.handle_rotation(16_667);
    assert_eq!(g.inner_velocity(), 5_236);
    assert_eq!(t.inner, 87);
    assert_eq!(g.target_inner_velocity(), 1_000_000);
    assert_eq!(g.target_outer_velocity(), 0);
}

#[test]
fn jumpgate_huge_step_saturates() {
    let mut g = Jumpgate::new(u64::MAX);
    g.set_target_inner_velocity(i64::MAX);
    g.set_target_outer_velocity(i64::MIN);
    let t = g.handle_rotation(u64::MAX);
    assert_eq!(g.inner_velocity(), i64::MAX);
    assert_eq!(g.outer_velocity(), i64::MIN);
    assert_eq!(t.outer, 0);
    assert_eq!(t.inner, (i64::MAX as u128) * (u64::MAX as u128) / 1_000_000);
}

#[test]
fn move_toward_steps_both_ways() {
    assert_eq!(move_toward(0, 10, 3), 3);
    assert_eq!(move_toward(9, 10, 3), 10);
    assert_eq!(move_toward(10, 0, 3), 7);
    assert_eq!(move_toward(2, 0, 3), 0);
    assert_eq!(move_toward(5, 5, 3), 5);
    assert_eq!(move_toward(i64::MIN, i64::MAX, u64::MAX), i64::MAX);
}

#[test]
fn clamp_bounds_value() {
    assert_eq!(clamp(-7, -1, 1), -1);
    assert_eq!(clamp(7, -1, 1), 1);
    assert_eq!(clamp(0, -1, 1), 0);
    assert_eq!(clamp(3, 5, 2), 2);
}
