use jgo::{Lever, LeverSignal, PointerEvent, DEFAULT_SENSITIVITY, POSITION_SCALE};

const LEFT_DOWN: PointerEvent = PointerEvent::Button { left: true, pressed: true };
const LEFT_UP: PointerEvent = PointerEvent::Button { left: true, pressed: false };

fn held_lever() -> Lever {
    let mut l = Lever::new(DEFAULT_SENSITIVITY);
    l.on_area_event(LEFT_DOWN);
    assert!(l.is_held());
    l
}

#[test]
fn lever_up_fires_once_crossing_threshold() {
    let mut l = held_lever();
    // 0.005 per pixel: 170 pixels up reach 0.85.
    assert_eq!(l.input(PointerEvent::Motion { dy: -170_000 }), None);
    assert_eq!(l.position(), 850_000);
    // 20 more pixels reach 0.95.
    assert_eq!(l.input(PointerEvent::Motion { dy: -20_000 }), Some(LeverSignal::LeverUp));
    assert_eq!(l.position(), 950_000);
    assert_eq!(l.input(PointerEvent::Motion { dy: -2_000 }), None);
    assert_eq!(l.position(), 960_000);
}

#[test]
fn lever_down_fires_crossing_lower_threshold() {
    let mut l = held_lever();
    assert_eq!(l.input(PointerEvent::Motion { dy: 190_000 }), Some(LeverSignal::LeverDown));
    assert_eq!(l.position(), -950_000);
    assert_eq!(l.input(PointerEvent::Motion { dy: 10_000 }), None);
    assert_eq!(l.position(), -1_000_000);
}

#[test]
fn lever_exactly_at_threshold_fires() {
    let mut l = held_lever();
    assert_eq!(l.input(PointerEvent::Motion { dy: -180_000 }), Some(LeverSignal::LeverUp));
    assert_eq!(l.position(), 900_000);
}

#[test]
fn lever_position_stays_in_range() {
    let mut l = held_lever();
    l.input(PointerEvent::Motion { dy: i64::MIN });
    assert_eq!(l.position(), POSITION_SCALE);
    l.input(PointerEvent::Motion { dy: i64::MAX });
    assert_eq!(l.position(), -POSITION_SCALE);
    let mut big = Lever::new(i64::MAX);
    big.on_area_event(LEFT_DOWN);
    assert_eq!(big.input(PointerEvent::Motion { dy: -1 }), Some(LeverSignal::LeverUp));
    assert_eq!(big.position(), POSITION_SCALE);
    assert_eq!(big.input(PointerEvent::Motion { dy: i64::MAX }), Some(LeverSignal::LeverDown));
    assert_eq!(big.position(), -POSITION_SCALE);
}

#[test]
fn lever_not_held_ignores_motion() {
    let mut l = Lever::new(DEFAULT_SENSITIVITY);
    assert_eq!(l.input(PointerEvent::Motion { dy: -500_000 }), None);
    assert_eq!(l.position(), 0);
    let mut l = held_lever();
    assert_eq!(l.input(PointerEvent::Button { left: false, pressed: false }), None);
    assert!(l.is_held());
    assert_eq!(l.input(LEFT_UP), None);
    assert!(!l.is_held());
    assert_eq!(l.input(PointerEvent::Motion { dy: -500_000 }), None);
    assert_eq!(l.position(), 0);
}

#[test]
fn lever_hit_area_ignores_other_buttons() {
    let mut l = Lever::new(DEFAULT_SENSITIVITY);
    l.on_area_event(PointerEvent::Button { left: false, pressed: true });
    l.on_area_event(LEFT_UP);
    l.on_area_event(PointerEvent::Motion { dy: 4 });
    assert!(!l.is_held());
    assert_eq!(l.sensitivity(), DEFAULT_SENSITIVITY);
}
