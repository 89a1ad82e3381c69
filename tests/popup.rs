use maintui::{ConfirmPopup, ConfirmResult, Key, KeyEvent, Modifier, Pointer, PopupFocus, Position, Rect, Size, Sound};

fn key(k: Key) -> KeyEvent {
    KeyEvent::with_key(0, Modifier::default(), true, k)
}

fn popup() -> ConfirmPopup {
    ConfirmPopup::with_title("Quit".to_string(), "Really quit?".to_string())
}

#[test]
fn popup_answers() {
    let p = Pointer::new(800, 600, Size { width: 10, height: 20 });
    let mut q = popup();
    assert_eq!(q.content_width(), 12);
    assert_eq!(q.focus(), PopupFocus::Cancel);
    assert_eq!(q.key_event(&p, key(Key::Enter)), ConfirmResult::Cancel);
    assert_eq!(q.key_event(&p, key(Key::Tab)), ConfirmResult::Nothing);
    assert_eq!(q.take_sound(), Some(Sound::SelectItem));
    assert_eq!(q.focus(), PopupFocus::Yes);
    assert_eq!(q.key_event(&p, key(Key::Enter)), ConfirmResult::Accept);
    // an answer puts focus back on cancel
    assert_eq!(q.focus(), PopupFocus::Cancel);
    assert_eq!(q.key_event(&p, key(Key::Char(b'y'))), ConfirmResult::Accept);
    assert_eq!(q.key_event(&p, key(Key::Char(b'n'))), ConfirmResult::Cancel);
    q.key_event(&p, key(Key::ArrowRight));
    assert_eq!(q.focus(), PopupFocus::Yes);
    q.key_event(&p, key(Key::Char(b'h')));
    assert_eq!(q.focus(), PopupFocus::Cancel);
    assert_eq!(q.key_event(&p, key(Key::Char(b'z'))), ConfirmResult::Nothing);
}

#[test]
fn popup_buttons_under_the_pointer() {
    let mut p = Pointer::new(800, 600, Size { width: 10, height: 20 });
    let mut q = popup();
    q.cancel_area = Rect::new(0, 10, 10, 1);
    q.yes_area = Rect::new(10, 10, 10, 1);
    p.set_cursor_position(Position::new(125, 205));
    assert!(q.mouse_event(&p));
    assert_eq!(q.focus(), PopupFocus::Yes);
    assert_eq!(q.key_event(&p, key(Key::Mouse(0))), ConfirmResult::Accept);
    p.set_cursor_position(Position::new(5, 205));
    assert_eq!(q.key_event(&p, key(Key::Mouse(0))), ConfirmResult::Cancel);
    p.set_cursor_position(Position::new(5, 5));
    assert!(!q.mouse_event(&p));
    assert_eq!(q.key_event(&p, key(Key::Mouse(0))), ConfirmResult::Nothing);
}
