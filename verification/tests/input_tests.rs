use viewer_core::input::{
    Action, Input, Key, WindowEvent, KEY_A, KEY_ESCAPE, KEY_LEFT_CONTROL, KEY_S, KEY_SPACE, KEY_W,
};

fn key(code: i32) -> Key {
    Key::new(code)
}

#[test]
fn new_input_has_no_key_down() {
    let input = Input::new();
    assert!(input.key_state.is_empty());
    for code in [KEY_W, KEY_S, KEY_A, KEY_SPACE, KEY_LEFT_CONTROL, KEY_ESCAPE, -1, 0, i32::MAX] {
        assert!(!input.is_key_down(key(code)));
    }
}

#[test]
fn key_codes_are_those_of_the_windowing_system() {
    assert_eq!(KEY_SPACE, 32);
    assert_eq!(KEY_A, 65);
    assert_eq!(viewer_core::input::KEY_D, 68);
    assert_eq!(KEY_S, 83);
    assert_eq!(KEY_W, 87);
    assert_eq!(KEY_ESCAPE, 256);
    assert_eq!(KEY_LEFT_CONTROL, 341);
    assert_eq!(key(87).code, 87);
}

#[test]
fn press_then_release_then_repeat() {
    let mut input = Input::new();
    let w = key(KEY_W);
    assert!(!input.is_key_down(w));

    input.handle_event(WindowEvent::Key(w, Action::Press));
    assert!(input.is_key_down(w));

    input.handle_event(WindowEvent::Key(w, Action::Repeat));
    assert!(input.is_key_down(w));

    input.handle_event(WindowEvent::Key(w, Action::Release));
    assert!(!input.is_key_down(w));

    input.handle_event(WindowEvent::Key(w, Action::Repeat));
    assert!(!input.is_key_down(w));
    assert_eq!(input.key_state.get(&KEY_W), Some(&false));
}

#[test]
fn repeat_of_an_unseen_key_leaves_no_entry() {
    let mut input = Input::new();
    input.handle_event(WindowEvent::Key(key(KEY_A), Action::Repeat));
    input.handle_event(WindowEvent::Other);
    assert!(input.key_state.is_empty());
    assert!(!input.is_key_down(key(KEY_A)));
}

#[test]
fn an_event_on_one_key_leaves_the_others() {
    let mut input = Input::new();
    input.handle_event(WindowEvent::Key(key(KEY_W), Action::Press));
    input.handle_event(WindowEvent::Key(key(KEY_S), Action::Press));
    input.handle_event(WindowEvent::Key(key(KEY_S), Action::Release));
    assert!(input.is_key_down(key(KEY_W)));
    assert!(!input.is_key_down(key(KEY_S)));
    assert!(!input.is_key_down(key(KEY_A)));
}

#[test]
fn a_queue_is_applied_oldest_first() {
    let mut input = Input::new();
    let events = vec![
        WindowEvent::Key(key(KEY_W), Action::Press),
        WindowEvent::Other,
        WindowEvent::Key(key(KEY_A), Action::Press),
        WindowEvent::Key(key(KEY_W), Action::Release),
        WindowEvent::Key(key(KEY_W), Action::Repeat),
        WindowEvent::Key(key(KEY_SPACE), Action::Release),
        WindowEvent::Key(key(KEY_SPACE), Action::Press),
    ];
    input.handle_window_events(&events);
    assert!(!input.is_key_down(key(KEY_W)));
    assert!(input.is_key_down(key(KEY_A)));
    assert!(input.is_key_down(key(KEY_SPACE)));
    assert!(!input.is_key_down(key(KEY_ESCAPE)));
    assert_eq!(input.key_state.len(), 3);
}

#[test]
fn an_empty_queue_changes_nothing() {
    let mut input = Input::new();
    input.set(key(KEY_W), true);
    input.handle_window_events(&Vec::new());
    assert!(input.is_key_down(key(KEY_W)));
    assert_eq!(input.key_state.len(), 1);
}

#[test]
fn the_last_press_or_release_decides() {
    let w = key(KEY_W);
    let mut input = Input::new();
    input.handle_window_events(&vec![
        WindowEvent::Key(w, Action::Release),
        WindowEvent::Key(w, Action::Press),
        WindowEvent::Key(key(KEY_S), Action::Release),
        WindowEvent::Key(w, Action::Repeat),
    ]);
    assert!(input.is_key_down(w));

    let mut input = Input::new();
    input.set(w, true);
    input.handle_window_events(&vec![
        WindowEvent::Key(key(KEY_S), Action::Press),
        WindowEvent::Key(w, Action::Repeat),
        WindowEvent::Other,
    ]);
    assert!(input.is_key_down(w));
}

#[test]
fn set_overwrites_and_is_idempotent() {
    let mut input = Input::new();
    let k = key(KEY_LEFT_CONTROL);
    input.set(k, true);
    let once = input.key_state.clone();
    input.set(k, true);
    assert_eq!(input.key_state, once);
    assert!(input.is_key_down(k));
    input.set(k, false);
    assert!(!input.is_key_down(k));
    assert_eq!(input.key_state.len(), 1);
}

#[test]
fn keys_outside_the_known_range_are_tracked_too() {
    let mut input = Input::new();
    input.handle_event(WindowEvent::Key(key(-1), Action::Press));
    assert!(input.is_key_down(key(-1)));
    assert!(!input.is_key_down(key(0)));
}
