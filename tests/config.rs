use maintui::{
    BackButton, Checkbox, ConfigAction, ConfigBackend, ConfigEntryBuilder, ConfigItem, ConfigList, Control,
    Key, KeyEvent, Label, ListFocus, Modifier, Pointer, Size, Sound, Value,
};

struct Memory {
    value: bool,
    enabled: bool,
    writes: u32,
}

impl ConfigBackend<bool> for Memory {
    fn is_enabled(&self) -> bool {
        self.enabled
    }

    fn read(&self) -> Option<bool> {
        Some(self.value)
    }

    fn write(&mut self, value: bool) {
        self.value = value;
        self.writes += 1;
    }
}

/// Negates what it stores, as an "invert" setting does.
struct Inverted {
    stored: bool,
}

impl ConfigBackend<bool> for Inverted {
    fn is_enabled(&self) -> bool {
        true
    }

    fn read(&self) -> Option<bool> {
        Some(!self.stored)
    }

    fn write(&mut self, value: bool) {
        self.stored = !value;
    }
}

fn key(k: Key) -> KeyEvent {
    KeyEvent::with_key(0, Modifier::default(), true, k)
}

fn pointer() -> Pointer {
    Pointer::new(800, 600, Size { width: 10, height: 20 })
}

#[test]
fn entry_shows_what_backend_reads_and_commits_back() {
    let p = pointer();
    let backend = Memory { value: true, enabled: true, writes: 0 };
    let mut entry = ConfigEntryBuilder::new(Checkbox::new())
        .label("Look spring".to_string())
        .hint("Center the view".to_string())
        .build(backend);
    assert!(entry.inner().value());
    assert_eq!(entry.label_text(), Some("Look spring"));
    let action = ConfigItem::<()>::item_key_event(&mut entry, &p, key(Key::Enter));
    assert!(matches!(action, ConfigAction::Nothing));
    assert!(!entry.inner().value());
    assert_eq!(ConfigItem::<()>::take_sound(&mut entry), Some(Sound::SelectChanged));
    entry.set(true);
    assert!(entry.inner().value());
    assert_eq!(ConfigItem::<()>::get_hint(&entry), Some("Center the view".to_string()));
}

#[test]
fn disabled_entry_keeps_its_value() {
    let backend = Memory { value: false, enabled: false, writes: 0 };
    let mut entry = ConfigEntryBuilder::new(Checkbox::new()).build(backend);
    assert!(!entry.is_enabled());
    entry.toggle();
    entry.set(true);
    assert!(!entry.inner().value());
}

#[test]
fn transforming_backend_round_trips() {
    let mut entry = ConfigEntryBuilder::new(Checkbox::new()).build(Inverted { stored: false });
    assert!(entry.inner().value());
    entry.set(false);
    assert!(!entry.inner().value());
    entry.toggle();
    assert!(entry.inner().value());
}

enum Row {
    Plain(u32),
    Modal { grabbed: u32 },
}

impl ConfigItem<()> for Row {
    fn get_hint(&self) -> Option<String> {
        None
    }

    fn item_key_event(&mut self, _: &Pointer, event: KeyEvent) -> ConfigAction<()> {
        match self {
            Row::Plain(n) => {
                *n += 1;
                ConfigAction::Nothing
            }
            Row::Modal { .. } if event.key().is_exec() => ConfigAction::Grab,
            Row::Modal { .. } => ConfigAction::Nothing,
        }
    }

    fn item_key_event_grab(&mut self, _: &Pointer, event: KeyEvent) -> ConfigAction<()> {
        match self {
            Row::Plain(_) => ConfigAction::Nothing,
            Row::Modal { grabbed } => {
                *grabbed += 1;
                match event.key() {
                    Key::Enter => ConfigAction::Confirm,
                    Key::Escape => ConfigAction::Cancel,
                    Key::Char(b'x') => ConfigAction::Control(Control::Hide),
                    _ => ConfigAction::Nothing,
                }
            }
        }
    }

    fn item_mouse_event(&mut self, _: &Pointer) -> bool {
        false
    }

    fn take_sound(&mut self) -> Option<Sound> {
        None
    }
}

fn counts(list: &ConfigList<(), Row>) -> Vec<u32> {
    (0..list.len())
        .map(|i| match list.item(i).unwrap() {
            Row::Plain(n) => *n,
            Row::Modal { grabbed } => *grabbed,
        })
        .collect()
}

#[test]
fn grabbed_row_gets_all_input_until_it_lets_go() {
    let p = pointer();
    let mut list = ConfigList::new("Options".to_string());
    list.add(Row::Plain(0));
    list.add(Row::Modal { grabbed: 0 });
    list.add(Row::Plain(0));
    assert!(matches!(list.key_event(&p, key(Key::ArrowDown)), Control::Nothing));
    assert!(matches!(list.key_event(&p, key(Key::Enter)), Control::Nothing));
    assert_eq!(list.focus(), ListFocus::Grab(1));
    assert_eq!(list.take_sounds(), vec![Sound::SelectNext, Sound::SelectItem]);
    list.key_event(&p, key(Key::ArrowDown));
    list.key_event(&p, key(Key::ArrowUp));
    assert_eq!(list.list_state().selected(), Some(1));
    assert_eq!(counts(&list), vec![0, 2, 0]);
    // a cancel ends the grab with its sound
    list.key_event(&p, key(Key::Escape));
    assert_eq!(list.focus(), ListFocus::Main);
    assert_eq!(list.take_sounds(), vec![Sound::Cancel]);
    list.key_event(&p, key(Key::ArrowDown));
    assert_eq!(list.list_state().selected(), Some(2));
    list.key_event(&p, key(Key::Enter));
    assert_eq!(counts(&list), vec![0, 3, 1]);
    // a control from the grabbed row is passed on and ends the grab
    list.key_event(&p, key(Key::ArrowUp));
    list.key_event(&p, key(Key::Enter));
    assert_eq!(list.focus(), ListFocus::Grab(1));
    assert!(matches!(list.key_event(&p, key(Key::Char(b'x'))), Control::Hide));
    assert_eq!(list.focus(), ListFocus::Main);
    list.key_event(&p, key(Key::ArrowDown));
    list.key_event(&p, key(Key::ArrowDown));
    assert_eq!(list.list_state().selected(), Some(2));
}

#[test]
fn confirm_returns_focus_to_the_list() {
    let p = pointer();
    let mut list = ConfigList::new("Options".to_string());
    list.add(Row::Modal { grabbed: 0 });
    list.key_event(&p, key(Key::Enter));
    list.key_event(&p, key(Key::Enter));
    assert_eq!(list.focus(), ListFocus::Main);
    assert_eq!(list.take_sounds(), vec![Sound::SelectItem, Sound::Confirm]);
    assert!(matches!(list.key_event(&p, key(Key::Escape)), Control::Back));
}

#[test]
fn back_row_and_label() {
    let p = pointer();
    let mut back = BackButton::new("Return".to_string());
    assert!(matches!(
        ConfigItem::<()>::item_key_event(&mut back, &p, key(Key::Enter)),
        ConfigAction::Control(Control::Back)
    ));
    assert!(matches!(ConfigItem::<()>::item_key_event(&mut back, &p, key(Key::Tab)), ConfigAction::Nothing));
    let label = Label::new("Audio".to_string());
    assert_eq!(label.text(), "Audio");
}

#[test]
fn layout_keeps_selection_visible() {
    let mut list = ConfigList::new("Options".to_string());
    for _ in 0..20 {
        list.add(Row::Plain(0));
    }
    let p = pointer();
    for _ in 0..15 {
        list.key_event(&p, key(Key::ArrowDown));
    }
    list.set_list_area(maintui::Rect::new(0, 0, 30, 10));
    let st = list.list_state();
    assert_eq!(st.selected(), Some(15));
    assert_eq!(st.offset(), 6);
}

#[test]
fn inverted_switch_negates_both_ways() {
    let mut entry = ConfigEntryBuilder::new(Checkbox::new())
        .build(maintui::Inverted { inner: Memory { value: false, enabled: true, writes: 0 } });
    assert!(entry.inner().value());
    entry.set(false);
    assert_eq!(entry.backend_read(), Some(false));
    entry.toggle();
    assert_eq!(entry.backend_read(), Some(true));
}

#[test]
fn clicking_a_row_selects_it() {
    let mut p = pointer();
    let mut list = ConfigList::new("Options".to_string());
    list.add(Row::Plain(0));
    list.add(Row::Modal { grabbed: 0 });
    list.set_list_area(maintui::Rect::new(0, 0, 30, 10));
    // cell (1, 1) is the second row
    p.set_cursor_position(maintui::Position::new(15, 25));
    assert!(matches!(list.key_event(&p, key(Key::Mouse(0))), Control::Nothing));
    assert_eq!(list.list_state().selected(), Some(1));
    assert_eq!(list.focus(), ListFocus::Main);
}
