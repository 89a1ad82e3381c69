use maintui::{Key, KeyEvent, List, ListState, Modifier, Pointer, Position, Rect, SelectResult, Size, Sound};

fn key(k: Key) -> KeyEvent {
    KeyEvent::with_key(0, Modifier::default(), true, k)
}

fn ctrl(k: Key) -> KeyEvent {
    KeyEvent::with_key(0, Modifier { ctrl: true, shift: false, alt: false }, true, k)
}

fn items(n: usize) -> Vec<String> {
    (0..n).map(|i| format!("item{i}")).collect()
}

fn pointer() -> Pointer {
    Pointer::new(800, 600, Size { width: 10, height: 20 })
}

#[test]
fn next_on_last_row_reports_down() {
    let p = pointer();
    let mut list = List::new_first(items(3));
    assert_eq!(list.key_event(&p, key(Key::ArrowDown)), SelectResult::Select(Some(1)));
    assert_eq!(list.take_sound(), Some(Sound::SelectNext));
    assert_eq!(list.key_event(&p, key(Key::Char(b'j'))), SelectResult::Select(Some(2)));
    assert_eq!(list.key_event(&p, key(Key::ArrowDown)), SelectResult::Down);
    assert_eq!(list.state.selected(), Some(2));
    assert_eq!(list.take_sound(), None);
}

#[test]
fn prev_on_first_row_reports_up() {
    let p = pointer();
    let mut list = List::new_first(items(3));
    assert_eq!(list.key_event(&p, key(Key::ArrowUp)), SelectResult::Up);
    assert_eq!(list.state.selected(), Some(0));
    list.key_event(&p, key(Key::ArrowDown));
    assert_eq!(list.key_event(&p, key(Key::Char(b'k'))), SelectResult::Select(Some(0)));
    assert_eq!(list.take_sound(), Some(Sound::SelectPrev));
}

#[test]
fn single_row_list_reports_both_edges() {
    let p = pointer();
    let mut list = List::new_first(items(1));
    assert_eq!(list.key_event(&p, key(Key::ArrowDown)), SelectResult::Down);
    assert_eq!(list.key_event(&p, key(Key::ArrowUp)), SelectResult::Up);
    assert_eq!(list.state.selected(), Some(0));
}

#[test]
fn nothing_selected_reports_edges() {
    let p = pointer();
    let mut list = List::new(items(2));
    assert_eq!(list.key_event(&p, key(Key::ArrowDown)), SelectResult::Down);
    assert_eq!(list.key_event(&p, key(Key::ArrowUp)), SelectResult::Up);
    assert_eq!(list.key_event(&p, key(Key::Enter)), SelectResult::Nothing);
}

#[test]
fn exec_back_home_end_and_pages() {
    let p = pointer();
    let mut list = List::new_first(items(30));
    list.area = Rect::new(0, 0, 20, 10);
    assert_eq!(list.key_event(&p, key(Key::Enter)), SelectResult::Accept(0));
    assert_eq!(list.key_event(&p, key(Key::Escape)), SelectResult::Cancel);
    assert_eq!(list.key_event(&p, key(Key::PageDown)), SelectResult::Select(Some(5)));
    assert_eq!(list.key_event(&p, ctrl(Key::Char(b'd'))), SelectResult::Select(Some(10)));
    assert_eq!(list.key_event(&p, ctrl(Key::Char(b'u'))), SelectResult::Select(Some(5)));
    assert_eq!(list.key_event(&p, key(Key::PageUp)), SelectResult::Select(Some(0)));
    assert_eq!(list.key_event(&p, key(Key::End)), SelectResult::Select(Some(usize::MAX)));
    assert_eq!(list.key_event(&p, key(Key::Home)), SelectResult::Select(Some(0)));
    assert_eq!(list.key_event(&p, key(Key::Char(b'u'))), SelectResult::Nothing);
}

#[test]
fn wheel_scrolls_no_further_than_last_page() {
    let p = pointer();
    let mut list = List::new_first(items(12));
    list.area = Rect::new(0, 0, 20, 10);
    list.key_event(&p, key(Key::MouseWheelDown(5)));
    assert_eq!(list.state.offset(), 2);
    list.key_event(&p, key(Key::MouseWheelUp(1)));
    assert_eq!(list.state.offset(), 1);
    list.key_event(&p, key(Key::MouseWheelUp(7)));
    assert_eq!(list.state.offset(), 0);
}

#[test]
fn shortcuts_activate_their_row() {
    let p = pointer();
    let mut list = List::new_first(items(3));
    list.set_bindings(vec![(Key::Char(b'x'), "item2".to_string()), (Key::Char(b'y'), "none".to_string())]);
    assert_eq!(list.match_binding(Key::Char(b'x')), Some(2));
    assert_eq!(list.key_event(&p, key(Key::Char(b'x'))), SelectResult::Accept(2));
    assert_eq!(list.key_event(&p, key(Key::Char(b'y'))), SelectResult::Nothing);
}

#[test]
fn clicks_select_and_activate() {
    let mut p = pointer();
    let mut list = List::new_first(items(5));
    list.area = Rect::new(0, 2, 20, 5);
    // pixel (15, 85) is cell (1, 4): the third visible row
    assert!(p.set_cursor_position(Position::new(15, 85)));
    assert_eq!(p.cursor_position(), Position::new(1, 4));
    assert_eq!(list.key_event(&p, key(Key::Mouse(0))), SelectResult::Accept(2));
    assert_eq!(list.key_event(&p, key(Key::Mouse(1))), SelectResult::ContextMenu(2));
    assert!(list.mouse_event(&p));
    assert_eq!(list.state.selected(), Some(2));
    p.set_cursor_position(Position::new(15, 500));
    assert_eq!(list.key_event(&p, key(Key::Mouse(0))), SelectResult::Nothing);
    assert!(!list.mouse_event(&p));
}

#[test]
fn list_state_moves() {
    let mut s = ListState::new();
    assert_eq!(s.next(), Some(Sound::SelectNext));
    assert_eq!(s.selected(), Some(0));
    assert_eq!(s.prev(), None);
    s.select(None);
    assert_eq!(s.offset(), 0);
}
