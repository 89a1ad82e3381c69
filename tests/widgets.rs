use maintui::{InputFocus, InputPopup, InputResult};
use maintui::{
    ConfigAction, ConfigBackend, ConfigEntryBuilder, ConfigItem, ConfirmResult, Control, Input, Key, KeyEvent,
    ListPopup, Modifier, MyTable, Pointer, Position, Rect, SelectResult, Size, Value,
};

fn key(k: Key) -> KeyEvent {
    KeyEvent::with_key(0, Modifier::default(), true, k)
}

fn with(k: Key, ctrl: bool, shift: bool, alt: bool) -> KeyEvent {
    KeyEvent::with_key(0, Modifier { ctrl, shift, alt }, true, k)
}

fn pointer() -> Pointer {
    Pointer::new(800, 600, Size { width: 10, height: 20 })
}

#[test]
fn table_navigation_and_header_row() {
    let mut p = pointer();
    let mut t: MyTable<u32> = MyTable::new_first();
    t.items = vec![10, 20, 30];
    t.area = Rect::new(0, 0, 30, 6);
    assert_eq!(t.key_event(&p, key(Key::ArrowUp)), SelectResult::Up);
    assert_eq!(t.key_event(&p, key(Key::ArrowDown)), SelectResult::Select(Some(1)));
    assert_eq!(t.key_event(&p, key(Key::ArrowDown)), SelectResult::Select(Some(2)));
    assert_eq!(t.key_event(&p, key(Key::ArrowDown)), SelectResult::Down);
    assert_eq!(t.key_event(&p, key(Key::Enter)), SelectResult::Accept(2));
    // the first line is the header: row 1 on screen is item 0
    p.set_cursor_position(Position::new(5, 25));
    assert_eq!(t.cursor_to_table_item(&p), Some(0));
    assert_eq!(t.key_event(&p, key(Key::Mouse(0))), SelectResult::Accept(0));
    p.set_cursor_position(Position::new(5, 5));
    assert_eq!(t.cursor_to_table_item(&p), None);
    assert!(!t.mouse_event(&p));
}

struct Index(usize);

impl ConfigBackend<usize> for Index {
    fn is_enabled(&self) -> bool {
        true
    }

    fn read(&self) -> Option<usize> {
        Some(self.0)
    }

    fn write(&mut self, value: usize) {
        self.0 = value;
    }
}

#[test]
fn popup_row_picks_and_commits() {
    let p = pointer();
    let popup = ListPopup::new("Mode".to_string(), vec!["  Low ".to_string(), "High".to_string()]);
    assert_eq!(popup.width(), 8);
    assert_eq!(popup.title(), "Mode");
    let mut entry = ConfigEntryBuilder::new(popup).build(Index(1));
    assert_eq!(entry.inner().value(), 1);
    assert_eq!(entry.get_index(), 1);
    assert!(matches!(ConfigItem::<()>::item_key_event(&mut entry, &p, key(Key::Enter)), ConfigAction::Grab));
    assert!(matches!(
        ConfigItem::<()>::item_key_event_grab(&mut entry, &p, key(Key::ArrowUp)),
        ConfigAction::Nothing
    ));
    assert!(matches!(
        ConfigItem::<()>::item_key_event_grab(&mut entry, &p, key(Key::Enter)),
        ConfigAction::Confirm
    ));
    assert_eq!(entry.get_index(), 0);
    assert!(matches!(
        ConfigItem::<()>::item_key_event_grab(&mut entry, &p, key(Key::Escape)),
        ConfigAction::Cancel
    ));
}

#[test]
fn text_field_editing() {
    let mut f = Input::new();
    for c in [b'h', b'i', b' ', b'y', b'o'] {
        assert_eq!(f.key_event(key(Key::Char(c))), ConfirmResult::Nothing);
    }
    assert_eq!(f.text(), "hi yo");
    f.key_event(with(Key::Char(b'1'), false, true, false));
    assert_eq!(f.text(), "hi yo!");
    f.key_event(key(Key::ArrowLeft));
    f.key_event(key(Key::Backspace));
    assert_eq!(f.text(), "hi y!");
    assert_eq!(f.cursor(), 4);
    f.key_event(key(Key::Delete));
    assert_eq!(f.text(), "hi y");
    f.key_event(with(Key::Char(b'w'), true, false, false));
    assert_eq!(f.text(), "hi");
    assert_eq!(f.cursor(), 2);
    f.key_event(key(Key::Home));
    f.key_event(with(Key::Char(b'a'), false, true, false));
    assert_eq!(f.text(), "Ahi");
    f.key_event(with(Key::Char(b'e'), true, false, false));
    assert_eq!(f.cursor(), 3);
    f.key_event(key(Key::ArrowRight));
    assert_eq!(f.cursor(), 3);
    f.key_event(with(Key::Char(b'x'), false, false, true));
    assert_eq!(f.text(), "Ahi");
    f.key_event(key(Key::ArrowLeft));
    f.key_event(with(Key::Char(b'u'), true, false, false));
    assert_eq!(f.text(), "i");
    assert_eq!(f.cursor(), 0);
    f.paste("ab");
    assert_eq!(f.text(), "abi");
    assert_eq!(f.key_event(key(Key::Enter)), ConfirmResult::Accept);
    assert_eq!(f.key_event(key(Key::Escape)), ConfirmResult::Cancel);
    f.set_value("long".to_string());
    assert_eq!(f.cursor(), 4);
    f.clear();
    assert_eq!(f.text(), "");
    assert!(Input::password().is_password());
}

struct Name(String);

impl ConfigBackend<String> for Name {
    fn is_enabled(&self) -> bool {
        true
    }

    fn read(&self) -> Option<String> {
        Some(self.0.clone())
    }

    fn write(&mut self, value: String) {
        self.0 = value;
    }
}

#[test]
fn text_row_writes_on_enter() {
    let p = pointer();
    let mut entry = ConfigEntryBuilder::new(Input::new()).build(Name("Player".to_string()));
    assert_eq!(entry.inner().text(), "Player");
    assert!(matches!(ConfigItem::<()>::item_key_event(&mut entry, &p, key(Key::Enter)), ConfigAction::Grab));
    assert!(entry.inner().is_cursor_shown());
    ConfigItem::<()>::item_key_event_grab(&mut entry, &p, key(Key::Char(b'2')));
    assert_eq!(entry.backend_read(), Some("Player".to_string()));
    assert!(matches!(
        ConfigItem::<()>::item_key_event_grab(&mut entry, &p, key(Key::Enter)),
        ConfigAction::Confirm
    ));
    assert_eq!(entry.backend_read(), Some("Player2".to_string()));
    assert!(!entry.inner().is_cursor_shown());
}

#[test]
fn select_results_become_controls() {
    let c: Control<()> = SelectResult::Accept(3).to_control(|i| if i == 3 { Control::Hide } else { Control::Nothing });
    assert!(matches!(c, Control::Hide));
    assert!(matches!(SelectResult::Cancel.to_control::<(), _>(|_| Control::Hide), Control::Back));
    assert!(matches!(SelectResult::Up.to_control::<(), _>(|_| Control::Hide), Control::Nothing));
}

#[test]
fn input_popup_answers() {
    let mut p = pointer();
    let mut q = InputPopup::new_password("Password".to_string());
    assert!(q.input().is_password());
    assert_eq!(q.focus(), InputFocus::Yes);
    q.key_event(&p, key(Key::Char(b'o')));
    q.key_event(&p, key(Key::Char(b'k')));
    assert!(matches!(q.key_event(&p, key(Key::Enter)), InputResult::Accept(ref s) if s == "ok"));
    assert!(matches!(q.key_event(&p, key(Key::Tab)), InputResult::Nothing));
    assert_eq!(q.focus(), InputFocus::Cancel);
    assert!(matches!(q.key_event(&p, key(Key::Enter)), InputResult::Cancel));
    assert!(matches!(q.key_event(&p, key(Key::Escape)), InputResult::Cancel));
    q.yes_area = Rect::new(10, 10, 10, 1);
    p.set_cursor_position(Position::new(125, 205));
    assert!(q.mouse_event(&p));
    assert!(matches!(q.key_event(&p, key(Key::Mouse(0))), InputResult::Accept(ref s) if s == "ok"));
    assert_eq!(q.focus(), InputFocus::Yes);
    q.clear();
    assert_eq!(q.input().text(), "");
}
