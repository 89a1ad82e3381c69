use maintui::{Sound, State};

#[derive(Copy, Clone, Debug, PartialEq, Eq)]
enum Focus {
    Menu,
    List,
}

impl Default for Focus {
    fn default() -> Self {
        Focus::Menu
    }
}

#[test]
fn every_focus_change_names_its_sound() {
    let mut s = State::new(Focus::Menu);
    assert_eq!(s.confirm(Focus::List), Sound::Confirm);
    assert_eq!(*s.focus(), Focus::List);
    assert_eq!(s.deny_default(), Sound::Deny);
    assert_eq!(*s.focus(), Focus::Menu);
    assert_eq!(s.select(Focus::List), Sound::SelectItem);
    assert_eq!(s.cancel_default(), Sound::Cancel);
    assert_eq!(*s.focus(), Focus::Menu);
    assert_eq!(s.next(Focus::List), Sound::SelectNext);
    assert_eq!(s.prev(Focus::Menu), Sound::SelectPrev);
    assert_eq!(s.deny(Focus::List), Sound::Deny);
    assert_eq!(s.confirm_default(), Sound::Confirm);
    s.set(Focus::List);
    assert_eq!(*s.focus(), Focus::List);
    s.reset();
    assert_eq!(*s.focus(), Focus::Menu);
}
