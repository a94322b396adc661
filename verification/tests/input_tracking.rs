use arcaders::input::{Events, ImmediateEvents, Key};

const KEYS: [Key; 10] = [
    Key::Escape,
    Key::Up,
    Key::Down,
    Key::Left,
    Key::Right,
    Key::Space,
    Key::Return,
    Key::Num1,
    Key::Num2,
    Key::Num3,
];

fn pressed(now: &ImmediateEvents, key: Key) -> bool {
    match key {
        Key::Escape => now.key_escape,
        Key::Up => now.key_up,
        Key::Down => now.key_down,
        Key::Left => now.key_left,
        Key::Right => now.key_right,
        Key::Space => now.key_space,
        Key::Return => now.key_return,
        Key::Num1 => now.key_1,
        Key::Num2 => now.key_2,
        Key::Num3 => now.key_3,
    }
}

#[test]
fn nothing_held_at_first() {
    let events = Events::new();
    assert_eq!(events.now, ImmediateEvents::new());
    assert!(!events.now.quit);
    for key in KEYS {
        assert!(!events.is_held(key));
        assert!(!pressed(&events.now, key));
    }
}

#[test]
fn press_marks_only_its_key() {
    for key in KEYS {
        let mut events = Events::new();
        events.press(key);
        for other in KEYS {
            assert_eq!(events.is_held(other), other == key);
            assert_eq!(pressed(&events.now, other), other == key);
        }
        assert!(!events.now.quit);
    }
}

#[test]
fn a_held_key_fires_once() {
    let mut events = Events::new();
    events.press(Key::Space);
    assert!(events.now.key_space);

    events.begin_frame();
    assert!(events.key_space);
    assert!(!events.now.key_space);

    // the platform repeats the key while it is held
    events.press(Key::Space);
    assert!(events.key_space);
    assert!(!events.now.key_space);

    events.release(Key::Space);
    assert!(!events.key_space);
    events.press(Key::Space);
    assert!(events.now.key_space);
}

#[test]
fn release_keeps_the_press_of_this_frame() {
    let mut events = Events::new();
    events.press(Key::Escape);
    events.press(Key::Left);
    events.release(Key::Escape);
    assert!(!events.key_escape);
    assert!(events.now.key_escape);
    assert!(events.key_left);
    assert!(events.now.key_left);
}

#[test]
fn release_clears_only_its_key() {
    for key in KEYS {
        let mut events = Events::new();
        for k in KEYS {
            events.press(k);
        }
        let now = events.now;
        events.release(key);
        for other in KEYS {
            assert_eq!(events.is_held(other), other != key);
        }
        assert_eq!(events.now, now);
    }
}

#[test]
fn begin_frame_forgets_edges_and_quit() {
    let mut events = Events::new();
    events.press(Key::Up);
    events.press(Key::Num2);
    events.request_quit();
    assert!(events.now.quit);
    events.begin_frame();
    assert_eq!(events.now, ImmediateEvents::new());
    assert!(events.key_up && events.key_2);
    assert!(!events.key_down);
}

#[test]
fn quit_request_touches_nothing_else() {
    let mut events = Events::new();
    events.press(Key::Return);
    let mut expected = events;
    expected.now.quit = true;
    events.request_quit();
    assert_eq!(events, expected);
}
