use vstd::prelude::*;

use crate::config::{ConfigAction, ConfigBackend, ConfigEntry, ConfigItem, Value};
use crate::input::{Key, KeyEvent};
use crate::list::List;
use crate::list_state::ListState;
use crate::pointer::Pointer;
use crate::sound::Sound;
use crate::text::{chars_of, trim};
use crate::widgets::SelectResult;

verus! {

/// What list `l` makes of `event`, the pointer at `backend`: a shortcut
/// activates its row, other keys move as `List::navigate` says.
pub open spec fn popup_answer(l: List, backend: Pointer, event: KeyEvent) -> SelectResult {
    match l.spec_match_binding(event.spec_key()) {
        Some(i) => SelectResult::Accept(i),
        None => List::navigate(
            l.spec_state(),
            l.spec_area(),
            l.spec_items().len() as usize,
            &backend,
            event,
        ).1,
    }
}

/// A titled list shown over the screen to pick one of its rows.
pub struct ListPopup {
    title: String,
    list: List,
    width: u16,
}

/// The number of characters of `s`.
fn char_count(s: &str) -> (r: usize)
    ensures
        r == s@.len(),
{
    chars_of(s).len()
}

impl ListPopup {
    pub closed spec fn spec_list(&self) -> List {
        self.list
    }

    pub closed spec fn spec_title(&self) -> Seq<char> {
        self.title@
    }

    /// A popup of `items` under `title`, the first row selected, as wide as
    /// its longest trimmed row or its title, plus a frame.
    pub fn new(title: String, items: Vec<String>) -> (r: Self)
        ensures
            r.spec_title() == title@,
            r.spec_list().spec_items() == items@.map_values(|s: String| s@),
            r.spec_list().spec_state() == (ListState { offset: 0, selected: Some(0), last: None }),
    {
        let mut content: usize = 0;
        let mut i: usize = 0;
        while i < items.len()
            invariant
                i <= items@.len(),
            decreases items@.len() - i,
        {
            let n = char_count(trim(items[i].as_str()).as_str());
            if n > content {
                content = n;
            }
            i += 1;
        }
        let t = char_count(title.as_str());
        let widest = if t > content { t } else { content };
        let width = if widest > 65531 { u16::MAX } else { widest as u16 + 4 };
        ListPopup { title, list: List::new_first(items), width }
    }

    pub fn title(&self) -> (r: &str)
        ensures
            r@ == self.spec_title(),
    {
        self.title.as_str()
    }

    /// Columns the popup takes: its widest line and a frame.
    pub fn width(&self) -> (r: u16)
        ensures
            r == self.spec_width(),
    {
        self.width
    }

    pub closed spec fn spec_width(&self) -> u16 {
        self.width
    }

    pub fn list(&self) -> (r: &List)
        ensures
            *r == self.spec_list(),
    {
        &self.list
    }

    pub fn list_mut(&mut self) -> (r: &mut List)
        ensures
            *r == old(self).spec_list(),
            final(self).spec_list() == *final(r),
            final(self).spec_title() == old(self).spec_title(),
    {
        &mut self.list
    }

    pub fn key_event(&mut self, backend: &Pointer, event: KeyEvent) -> (r: SelectResult)
        ensures
            r == popup_answer(old(self).spec_list(), *backend, event),
            final(self).spec_title() == old(self).spec_title(),
            final(self).spec_list().spec_items() == old(self).spec_list().spec_items(),
            old(self).spec_list().spec_match_binding(event.spec_key()) is None ==> (
            final(self).spec_list().spec_state(),
            r,
            ) == List::navigate(
                old(self).spec_list().spec_state(),
                old(self).spec_list().spec_area(),
                old(self).spec_list().spec_items().len() as usize,
                backend,
                event,
            ),
    {
        self.list.key_event(backend, event)
    }

    pub fn mouse_event(&mut self, backend: &Pointer) -> (r: bool)
        ensures
            final(self).spec_title() == old(self).spec_title(),
            final(self).spec_list().spec_items() == old(self).spec_list().spec_items(),
    {
        self.list.mouse_event(backend)
    }

    pub fn take_sound(&mut self) -> (r: Option<Sound>)
        ensures
            r == old(self).spec_list().spec_sound(),
            final(self).spec_title() == old(self).spec_title(),
    {
        self.list.take_sound()
    }
}

impl Value<usize> for ListPopup {
    /// The selected row; the first when nothing is selected.
    closed spec fn spec_value(&self) -> usize {
        match self.list.spec_state().selected {
            Some(i) => i,
            None => 0,
        }
    }

    fn value(&self) -> (r: usize) {
        match self.list.selected() {
            Some(i) => i,
            None => 0,
        }
    }

    fn set_value(&mut self, value: usize) {
        self.list.select(Some(value));
    }
}

impl<B: ConfigBackend<usize>> ConfigEntry<usize, ListPopup, B> {
    /// The row the setting names: what the backend reads, else what the
    /// popup shows.
    pub fn get_index(&self) -> (r: usize)
        ensures
            r == match self.spec_backend().spec_read() {
                Some(i) => i,
                None => self.spec_widget().spec_value(),
            },
    {
        match self.backend_read() {
            Some(i) => i,
            None => self.inner().value(),
        }
    }

    /// The popup's answer to one event; an activated row is committed.
    pub fn popup_key_event(&mut self, backend: &Pointer, event: KeyEvent) -> (r: SelectResult)
        ensures
            r == popup_answer(old(self).spec_widget().spec_list(), *backend, event),
            old(self).spec_backend().spec_enabled() ==> (r matches SelectResult::Accept(i) ==> {
                &&& final(self).spec_widget().spec_value() == i
                &&& final(self).spec_backend().spec_read() == old(self).spec_backend().spec_after_write(i)
            }),
    {
        let action = self.inner_mut().key_event(backend, event);
        if let SelectResult::Accept(i) = action {
            self.set(i);
        }
        action
    }
}

impl<M, B: ConfigBackend<usize>> ConfigItem<M> for ConfigEntry<usize, ListPopup, B> {
    /// Activating an enabled row opens its popup, which then holds all input.
    open spec fn spec_answer(&self, backend: Pointer, event: KeyEvent) -> ConfigAction<M> {
        if self.spec_backend().spec_enabled() && (event.spec_key().spec_is_exec() || event.spec_key()
            == Key::Mouse(0)) {
            ConfigAction::Grab
        } else {
            ConfigAction::Nothing
        }
    }

    /// An activated row of the popup confirms, leaving the popup cancels.
    open spec fn spec_grab_answer(&self, backend: Pointer, event: KeyEvent) -> ConfigAction<M> {
        match popup_answer(self.spec_widget().spec_list(), backend, event) {
            SelectResult::Accept(_) => ConfigAction::Confirm,
            SelectResult::Cancel => ConfigAction::Cancel,
            _ => ConfigAction::Nothing,
        }
    }

    fn get_hint(&self) -> (r: Option<String>) {
        self.hint_text()
    }

    fn item_key_event(&mut self, backend: &Pointer, event: KeyEvent) -> (r: ConfigAction<M>) {
        let key = event.key();
        if self.is_enabled() && (key.is_exec() || key == Key::Mouse(0)) {
            ConfigAction::Grab
        } else {
            ConfigAction::Nothing
        }
    }

    fn item_key_event_grab(&mut self, backend: &Pointer, event: KeyEvent) -> (r: ConfigAction<M>) {
        match self.popup_key_event(backend, event) {
            SelectResult::Accept(_) => ConfigAction::Confirm,
            SelectResult::Cancel => ConfigAction::Cancel,
            _ => ConfigAction::Nothing,
        }
    }

    fn item_mouse_event(&mut self, backend: &Pointer) -> (r: bool) {
        self.inner_mut().mouse_event(backend)
    }

    fn take_sound(&mut self) -> (r: Option<Sound>) {
        self.inner_mut().take_sound()
    }
}

} // verus!
