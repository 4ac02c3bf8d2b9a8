use kobel::geometry::{Point, Size};
use kobel::keys::{Modifiers, KEY_ESCAPE, KEY_SPACE};
use kobel::state::KobelShellState;
use kobel::KobelRootMessage;

fn released() -> Modifiers {
    Modifiers { shift: false, control: false, alt: false, logo: false }
}

#[test]
fn press_then_release_empties_pressed_set_despite_duplicates() {
    let mut state = KobelShellState::new(0);
    let keys_a: Vec<u32> = vec![10, 11, 10, 12];
    let keys_b: Vec<u32> = vec![11, 11, 12];
    state.update(&KobelRootMessage::KeysPressed { modifiers: released(), keys: keys_a });
    state.update(&KobelRootMessage::KeysPressed { modifiers: released(), keys: keys_b });
    assert_eq!(state.keys_pressed.len(), 3);

    state.update(&KobelRootMessage::KeysReleased { modifiers: released(), keys: vec![12, 10] });
    state.update(&KobelRootMessage::KeysReleased {
        modifiers: released(),
        keys: vec![11, 11, 10],
    });
    assert!(state.keys_pressed.is_empty());
}

#[test]
fn pressing_a_pressed_key_and_releasing_an_absent_key_are_noops() {
    let mut state = KobelShellState::new(0);
    state.update(&KobelRootMessage::KeysPressed { modifiers: released(), keys: vec![KEY_SPACE] });
    state.update(&KobelRootMessage::KeysPressed { modifiers: released(), keys: vec![KEY_SPACE] });
    assert_eq!(state.keys_pressed, vec![KEY_SPACE]);

    state.update(&KobelRootMessage::KeysReleased {
        modifiers: released(),
        keys: vec![KEY_ESCAPE],
    });
    assert_eq!(state.keys_pressed, vec![KEY_SPACE]);
}

#[test]
fn tick_advances_clock_and_records_frame_duration() {
    let mut state = KobelShellState::new(1_000_000);
    state.update(&KobelRootMessage::Tick(1_020_000));
    assert_eq!(state.now_micros, 1_020_000);
    assert_eq!(state.fps.sample_count(), 1);
    // One 20 ms frame: 50 frames per second.
    assert_eq!(state.fps.fps(), 50);
}

#[test]
fn pointer_and_screen_events_overwrite_last_known_values() {
    let mut state = KobelShellState::new(0);
    state.update(&KobelRootMessage::CursorMoved { position: Point { x: 12, y: -3 } });
    assert_eq!(state.pointer_position, Point { x: 12, y: -3 });
    state.update(&KobelRootMessage::ScreenSizeChanged {
        size: Size { width: 2560, height: 1440 },
    });
    assert_eq!(state.screen_size, Size { width: 2560, height: 1440 });
    // Unrelated events leave both untouched.
    state.update(&KobelRootMessage::Noop);
    assert_eq!(state.pointer_position, Point { x: 12, y: -3 });
    assert_eq!(state.screen_size, Size { width: 2560, height: 1440 });
}

#[test]
fn modifiers_follow_keyboard_events() {
    let mut state = KobelShellState::new(0);
    let ctrl = Modifiers { shift: false, control: true, alt: false, logo: false };
    state.update(&KobelRootMessage::KeysPressed { modifiers: ctrl, keys: vec![KEY_SPACE] });
    assert!(state.modifiers_pressed.control);
    state.update(&KobelRootMessage::KeysReleased { modifiers: released(), keys: vec![KEY_SPACE] });
    assert!(!state.modifiers_pressed.control);
}
