use maintui::{key_of, Key, KeyEvent, Modifier, Position};

#[test]
fn raw_codes_map_to_keys() {
    assert_eq!(Key::from(13u8), Key::Enter);
    assert_eq!(Key::from(27u8), Key::Escape);
    assert_eq!(Key::from(9u8), Key::Tab);
    assert_eq!(Key::from(128u8), Key::ArrowUp);
    assert_eq!(Key::from(129u8), Key::ArrowDown);
    assert_eq!(Key::from(130u8), Key::ArrowLeft);
    assert_eq!(Key::from(131u8), Key::ArrowRight);
    assert_eq!(Key::from(133u8), Key::Ctrl);
    assert_eq!(Key::from(241u8), Key::Mouse(0));
    assert_eq!(Key::from(245u8), Key::Mouse(4));
    assert_eq!(Key::from(240u8), Key::MouseWheelUp(1));
    assert_eq!(Key::from(239u8), Key::MouseWheelDown(1));
    assert_eq!(Key::from(b'a'), Key::Char(b'a'));
    let _ = key_of;
}

#[test]
fn key_classes() {
    assert!(Key::Enter.is_exec() && Key::Char(b'l').is_exec() && Key::ArrowRight.is_exec());
    assert!(Key::Escape.is_back() && Key::Char(b'q').is_back() && Key::Char(b'h').is_back());
    assert!(Key::ArrowUp.is_prev() && Key::Char(b'k').is_prev());
    assert!(Key::ArrowDown.is_next() && Key::Char(b'j').is_next());
    assert!(!Key::Char(b'x').is_exec() && !Key::Tab.is_back());
}

#[test]
fn events_keep_their_parts() {
    let m = Modifier { ctrl: true, shift: false, alt: true };
    let e = KeyEvent::new(13, m, true);
    assert_eq!(e.key(), Key::Enter);
    assert_eq!(e.raw(), 13);
    assert!(e.is_down() && !e.is_up());
    assert!(e.ctrl() && !e.shift() && e.alt());
    let t = KeyEvent::new_touch(Modifier::default(), Key::TouchStart(Position::new(1, 2)));
    assert_eq!(t.raw(), 0);
    assert!(t.is_down());
    assert_eq!(t.key(), Key::TouchStart(Position { x: 1, y: 2 }));
}
