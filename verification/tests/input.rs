use automation_core::errors::Error;
use automation_core::input::{
    plan_button_down, plan_button_up, plan_click, plan_double_click, plan_drag, plan_hold_key,
    plan_move, plan_press_key, plan_scroll, plan_type_text, releases_owed, to_absolute,
    to_relative, Action, InputEvent,
    MouseButton, ScrollAxis, DOUBLE_CLICK_GAP_MS, DRAG_STEP_GAP_MS, SETTLE_DELAY_MS,
};
use automation_core::keys::{KeyToken, NamedKey, Platform};
use automation_core::monitor::Monitor;

fn monitor_at(x: i32, y: i32) -> Monitor {
    Monitor {
        id: "1".to_string(),
        is_primary: true,
        name: "main".to_string(),
        width: 1920,
        height: 1080,
        x,
        y,
    }
}

#[test]
fn move_translates_through_monitor_origin() {
    let m = monitor_at(100, 200);
    assert_eq!(to_absolute(&m, 10, 20), (110, 220));
    let events = plan_move(&m, 10, 20);
    assert_eq!(events, vec![InputEvent::MouseMove { x: 110, y: 220 }]);

    let m = monitor_at(-1920, 50);
    let events = plan_move(&m, 5, -5);
    assert_eq!(events, vec![InputEvent::MouseMove { x: -1915, y: 45 }]);
}

#[test]
fn click_with_coordinates_moves_then_settles_then_clicks() {
    let m = monitor_at(100, 200);
    let events = plan_click(&m, "left", Some(10), Some(20)).unwrap();
    assert_eq!(
        events,
        vec![
            InputEvent::MouseMove { x: 110, y: 220 },
            InputEvent::Sleep {
                millis: SETTLE_DELAY_MS
            },
            InputEvent::Button {
                button: MouseButton::Left,
                action: Action::Click
            },
        ]
    );
}

#[test]
fn click_without_coordinates_is_a_bare_click() {
    let m = monitor_at(0, 0);
    let events = plan_click(&m, "right", None, None).unwrap();
    assert_eq!(
        events,
        vec![InputEvent::Button {
            button: MouseButton::Right,
            action: Action::Click
        }]
    );
    let events = plan_click(&m, "left", Some(5), None).unwrap();
    assert_eq!(events.len(), 1);
}

#[test]
fn middle_button_is_an_invalid_argument() {
    let m = monitor_at(0, 0);
    let err = plan_click(&m, "middle", None, None).unwrap_err();
    assert!(matches!(err, Error::InvalidArgument(_)));
    assert_eq!(err.message(), "Invalid mouse button");

    let err = plan_double_click(&m, "middle", None, None).unwrap_err();
    assert!(matches!(err, Error::InvalidArgument(_)));
}

#[test]
fn double_click_has_no_settle_delay_and_a_short_gap() {
    let m = monitor_at(100, 200);
    let events = plan_double_click(&m, "left", Some(1), Some(2)).unwrap();
    assert_eq!(
        events,
        vec![
            InputEvent::MouseMove { x: 101, y: 202 },
            InputEvent::Button {
                button: MouseButton::Left,
                action: Action::Click
            },
            InputEvent::Sleep {
                millis: DOUBLE_CLICK_GAP_MS
            },
            InputEvent::Button {
                button: MouseButton::Left,
                action: Action::Click
            },
        ]
    );
}

#[test]
fn drag_presses_pauses_moves_pauses_releases() {
    let m = monitor_at(10, 10);
    let events = plan_drag(&m, Some(1), Some(1));
    assert_eq!(
        events,
        vec![
            InputEvent::Button {
                button: MouseButton::Left,
                action: Action::Press
            },
            InputEvent::Sleep {
                millis: DRAG_STEP_GAP_MS
            },
            InputEvent::MouseMove { x: 11, y: 11 },
            InputEvent::Sleep {
                millis: DRAG_STEP_GAP_MS
            },
            InputEvent::Button {
                button: MouseButton::Left,
                action: Action::Release
            },
        ]
    );
    let events = plan_drag(&m, None, None);
    assert_eq!(events.len(), 4);
}

#[test]
fn scroll_picks_axis_and_sign_from_direction() {
    let up = plan_scroll(Some(3), "up").unwrap();
    assert_eq!(
        up,
        vec![InputEvent::Scroll {
            length: -3,
            axis: ScrollAxis::Vertical
        }]
    );
    let down = plan_scroll(Some(3), "down").unwrap();
    assert_eq!(
        down,
        vec![InputEvent::Scroll {
            length: 3,
            axis: ScrollAxis::Vertical
        }]
    );
    let left = plan_scroll(Some(2), "left").unwrap();
    assert_eq!(
        left,
        vec![InputEvent::Scroll {
            length: -2,
            axis: ScrollAxis::Horizontal
        }]
    );
    let right = plan_scroll(None, "right").unwrap();
    assert_eq!(
        right,
        vec![InputEvent::Scroll {
            length: 1,
            axis: ScrollAxis::Horizontal
        }]
    );
}

#[test]
fn scroll_rejects_other_directions() {
    let err = plan_scroll(Some(1), "diagonal").unwrap_err();
    assert!(matches!(err, Error::InvalidArgument(_)));
    assert_eq!(err.message(), "Invalid direction");
}

#[test]
fn bare_button_plans() {
    assert_eq!(
        plan_button_down(),
        vec![InputEvent::Button {
            button: MouseButton::Left,
            action: Action::Press
        }]
    );
    assert_eq!(
        plan_button_up(),
        vec![InputEvent::Button {
            button: MouseButton::Left,
            action: Action::Release
        }]
    );
}

#[test]
fn type_text_is_one_whole_text_event() {
    let events = plan_type_text("h\u{e9}llo world".to_string());
    assert_eq!(
        events,
        vec![InputEvent::Text {
            text: "h\u{e9}llo world".to_string()
        }]
    );
}

#[test]
fn press_key_holds_modifier_exactly_around_the_key() {
    let events = plan_press_key("ctrl+s", Platform::Other).unwrap();
    assert_eq!(
        events,
        vec![
            InputEvent::Key {
                token: KeyToken::Named(NamedKey::Control),
                action: Action::Press
            },
            InputEvent::Key {
                token: KeyToken::Unicode('s'),
                action: Action::Click
            },
            InputEvent::Key {
                token: KeyToken::Named(NamedKey::Control),
                action: Action::Release
            },
        ]
    );
}

#[test]
fn press_key_bare_key_is_one_click() {
    let events = plan_press_key("Up", Platform::Other).unwrap_err();
    assert!(matches!(events, Error::UnknownKey(_)));

    let events = plan_press_key("up", Platform::Other).unwrap();
    assert_eq!(
        events,
        vec![InputEvent::Key {
            token: KeyToken::Named(NamedKey::UpArrow),
            action: Action::Click
        }]
    );
}

#[test]
fn hold_key_issues_exactly_one_hundred_cycles_for_two_units() {
    let events = plan_hold_key("a", Platform::Other, Some(2)).unwrap();
    assert_eq!(events.len(), 100);
    for e in &events {
        assert_eq!(
            *e,
            InputEvent::Key {
                token: KeyToken::Unicode('a'),
                action: Action::Click
            }
        );
    }
}

#[test]
fn hold_key_defaults_to_one_unit() {
    let events = plan_hold_key("tab", Platform::Other, None).unwrap();
    assert_eq!(events.len(), 50);
}

#[test]
fn hold_key_with_modifier_repeats_whole_chord() {
    let events = plan_hold_key("shift+x", Platform::Other, Some(1)).unwrap();
    assert_eq!(events.len(), 150);
    assert_eq!(
        events[0],
        InputEvent::Key {
            token: KeyToken::Named(NamedKey::Shift),
            action: Action::Press
        }
    );
    assert_eq!(
        events[149],
        InputEvent::Key {
            token: KeyToken::Named(NamedKey::Shift),
            action: Action::Release
        }
    );
}

#[test]
fn hold_key_non_positive_duration_plans_nothing() {
    let events = plan_hold_key("a", Platform::Other, Some(0)).unwrap();
    assert!(events.is_empty());
    let events = plan_hold_key("a", Platform::Other, Some(-1)).unwrap();
    assert!(events.is_empty());
}

#[test]
fn hold_key_unknown_chord_fails() {
    let err = plan_hold_key("zzz_not_a_key", Platform::Other, Some(1)).unwrap_err();
    assert!(matches!(err, Error::UnknownKey(_)));
}

#[test]
fn cursor_is_reported_relative_to_the_monitor_origin() {
    let m = monitor_at(100, 200);
    assert_eq!(to_relative(&m, 110, 220), (10, 20));
    let m = monitor_at(-1920, 50);
    assert_eq!(to_relative(&m, -1915, 45), (5, -5));
}

#[test]
fn failed_chord_owes_the_modifier_release() {
    let plan = plan_press_key("ctrl+s", Platform::Other).unwrap();
    // The modifier press went through, the key click did not.
    let owed = releases_owed(&plan, 1);
    assert_eq!(
        owed,
        vec![InputEvent::Key {
            token: KeyToken::Named(NamedKey::Control),
            action: Action::Release
        }]
    );
    // A fully performed chord owes nothing.
    assert!(releases_owed(&plan, 3).is_empty());
    // Nothing performed, nothing owed.
    assert!(releases_owed(&plan, 0).is_empty());
}

#[test]
fn interrupted_drag_owes_the_button_release() {
    let m = monitor_at(0, 0);
    let plan = plan_drag(&m, Some(3), Some(4));
    // Press and first pause done, the move failed.
    let owed = releases_owed(&plan, 2);
    assert_eq!(
        owed,
        vec![InputEvent::Button {
            button: MouseButton::Left,
            action: Action::Release
        }]
    );
    // The whole drag performed releases its own press.
    assert!(releases_owed(&plan, plan.len()).is_empty());
}

#[test]
fn nested_holds_unwind_in_reverse_order() {
    let mut plan = plan_button_down();
    plan.extend(plan_press_key("shift+x", Platform::Other).unwrap());
    // Button press, modifier press and key click done; the modifier
    // release failed: the modifier is let go of before the button.
    let owed = releases_owed(&plan, 3);
    assert_eq!(
        owed,
        vec![
            InputEvent::Key {
                token: KeyToken::Named(NamedKey::Shift),
                action: Action::Release
            },
            InputEvent::Button {
                button: MouseButton::Left,
                action: Action::Release
            },
        ]
    );
}
