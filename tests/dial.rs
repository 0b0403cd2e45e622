use jilar::dial::{step_divisor, DialAction, DialControl, DialEvent, DialSize, Direction};

#[test]
fn step_divisor_follows_control_key() {
    assert_eq!(step_divisor(0), 1);
    assert_eq!(step_divisor(1), 1);
    assert_eq!(step_divisor(2), 10);
    assert_eq!(step_divisor(3), 10);
    assert_eq!(step_divisor(u32::MAX), 10);
    assert_eq!(step_divisor(u32::MAX - 2), 1);
}

#[test]
fn scroll_up_without_modifier_is_one_whole_step_up() {
    let mut dial = DialControl::new();
    let action = dial.event(DialEvent::Scroll { direction: Direction::Up, modifiers: 0 });
    assert_eq!(action, DialAction::Step { direction: Direction::Up, divisor: 1 });
}

#[test]
fn scroll_down_with_control_is_a_tenth_step_down() {
    let mut dial = DialControl::new();
    let action = dial.event(DialEvent::Scroll { direction: Direction::Down, modifiers: 2 });
    assert_eq!(action, DialAction::Step { direction: Direction::Down, divisor: 10 });
    assert!(!dial.is_dragging());
}

#[test]
fn drag_begins_moves_and_ends() {
    let mut dial = DialControl::new();
    assert_eq!(dial.event(DialEvent::PointerMove { modifiers: 0 }), DialAction::Decline);
    assert_eq!(dial.event(DialEvent::PointerPress(1)), DialAction::BeginDrag);
    assert!(dial.is_dragging());
    assert_eq!(dial.event(DialEvent::PointerMove { modifiers: 0 }), DialAction::Drag { divisor: 1 });
    assert_eq!(dial.event(DialEvent::PointerMove { modifiers: 2 }), DialAction::Drag { divisor: 10 });
    assert_eq!(dial.event(DialEvent::PointerRelease(1)), DialAction::EndDrag);
    assert!(!dial.is_dragging());
    assert_eq!(dial.event(DialEvent::PointerMove { modifiers: 0 }), DialAction::Decline);
}

#[test]
fn secondary_button_resets_to_default() {
    let mut dial = DialControl::new();
    assert_eq!(dial.event(DialEvent::PointerPress(3)), DialAction::ResetToDefault);
    assert!(!dial.is_dragging());
}

#[test]
fn other_buttons_and_events_are_declined() {
    let mut dial = DialControl::new();
    assert_eq!(dial.event(DialEvent::PointerPress(2)), DialAction::Decline);
    assert_eq!(dial.event(DialEvent::PointerRelease(3)), DialAction::Decline);
    assert_eq!(dial.event(DialEvent::Other), DialAction::Decline);
    dial.event(DialEvent::PointerPress(1));
    assert_eq!(dial.event(DialEvent::PointerRelease(3)), DialAction::Decline);
    assert!(dial.is_dragging());
}

#[test]
fn dial_sizes() {
    let mut dial = DialControl::new();
    assert_eq!(dial.size(), DialSize::Normal);
    assert_eq!(dial.radius(), 18);
    assert_eq!(dial.min_width(), 72);
    assert_eq!(dial.min_height(), 75);
    dial.set_large();
    assert_eq!(dial.size(), DialSize::Large);
    assert_eq!(dial.radius(), 24);
    assert_eq!(dial.min_width(), 96);
    assert_eq!(dial.min_height(), 99);
    dial.set_small();
    assert_eq!(dial.size(), DialSize::Small);
    assert_eq!(dial.radius(), 12);
    assert_eq!(dial.min_width(), 48);
    assert_eq!(dial.min_height(), 51);
}

#[test]
fn value_readout_follows_pointer() {
    let mut dial = DialControl::new();
    assert!(!dial.value_indicator_active());
    dial.pointer_enter();
    assert!(dial.value_indicator_active());
    dial.pointer_leave();
    assert!(!dial.value_indicator_active());
}
