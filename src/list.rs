use vstd::prelude::*;

use crate::geometry::Rect;
use crate::input::{Key, KeyEvent};
use crate::list_state::{clamp_usize, max_offset, min, sel_or_first, ListState};
use crate::pointer::Pointer;
use crate::sound::Sound;
use crate::widgets::SelectResult;

verus! {

/// `i` is the first place where `x` stands in `s`.
pub open spec fn is_first<A>(s: Seq<A>, x: A, i: int) -> bool {
    &&& 0 <= i < s.len()
    &&& s[i] == x
    &&& forall|j: int| 0 <= j < i ==> s[j] != x
}

/// The first place where `x` stands in `s`, if any.
pub open spec fn first_index<A>(s: Seq<A>, x: A) -> Option<int> {
    if exists|i: int| is_first(s, x, i) {
        Some(choose|i: int| is_first(s, x, i))
    } else {
        None
    }
}

pub proof fn lemma_first_index<A>(s: Seq<A>, x: A, i: int)
    requires
        is_first(s, x, i),
    ensures
        first_index(s, x) == Some(i),
{
    let k = choose|k: int| is_first(s, x, k);
    assert(is_first(s, x, k));
    if k < i {
        assert(s[k] != x);
    } else if i < k {
        assert(s[i] != x);
    }
}

pub proof fn lemma_no_index<A>(s: Seq<A>, x: A)
    requires
        forall|j: int| 0 <= j < s.len() ==> s[j] != x,
    ensures
        first_index(s, x) is None,
{
}

/// A list never wraps around: "next" on its last row and "prev" on its first
/// row leave the selection where it is and report the edge, so a one-row
/// list reports both edges at once.
pub proof fn lemma_list_edges(
    state: ListState,
    area: Rect,
    len: usize,
    backend: &Pointer,
    event: KeyEvent,
)
    requires
        len > 0,
    ensures
        state.selected == Some((len - 1) as usize) && event.spec_key().spec_is_next()
            ==> List::navigate(state, area, len, backend, event) == (state, SelectResult::Down),
        state.selected == Some(0usize) && event.spec_key().spec_is_prev()
            ==> List::navigate(state, area, len, backend, event) == (state, SelectResult::Up),
{
}

/// A scrollable list of labelled rows with keyboard shortcuts.
pub struct List {
    /// Where the rows were last drawn.
    pub area: Rect,
    pub state: ListState,
    items: Vec<String>,
    bindings: Vec<(Key, String)>,
    sound: Option<Sound>,
}

impl List {
    pub closed spec fn spec_state(&self) -> ListState {
        self.state
    }

    pub closed spec fn spec_area(&self) -> Rect {
        self.area
    }

    /// The row labels.
    pub closed spec fn spec_items(&self) -> Seq<Seq<char>> {
        self.items@.map_values(|s: String| s@)
    }

    /// The shortcut keys, in the order they were given.
    pub closed spec fn spec_binding_keys(&self) -> Seq<Key> {
        self.bindings@.map_values(|b: (Key, String)| b.0)
    }

    /// The row label that each shortcut key activates.
    pub closed spec fn spec_binding_items(&self) -> Seq<Seq<char>> {
        self.bindings@.map_values(|b: (Key, String)| b.1@)
    }

    /// The sound that the last event asked for.
    pub closed spec fn spec_sound(&self) -> Option<Sound> {
        self.sound
    }

    /// The row that shortcut `key` activates: the first row labelled as the
    /// first binding of `key` names.
    pub open spec fn spec_match_binding(&self, key: Key) -> Option<usize> {
        match first_index(self.spec_binding_keys(), key) {
            Some(b) => match first_index(self.spec_items(), self.spec_binding_items()[b]) {
                Some(i) => Some(i as usize),
                None => None,
            },
            None => None,
        }
    }

    /// A list of `items` with nothing selected.
    pub fn new(items: Vec<String>) -> (r: Self)
        ensures
            r.spec_items() == items@.map_values(|s: String| s@),
            r.spec_binding_keys().len() == 0,
            r.spec_state() == (ListState { offset: 0, selected: None, last: None }),
            r.spec_area() == Rect::zero_spec(),
            r.spec_sound() is None,
    {
        List {
            area: Rect { x: 0, y: 0, width: 0, height: 0 },
            state: ListState::new(),
            items,
            bindings: Vec::new(),
            sound: None,
        }
    }

    /// A list of `items` with the first row selected.
    pub fn new_first(items: Vec<String>) -> (r: Self)
        ensures
            r.spec_items() == items@.map_values(|s: String| s@),
            r.spec_binding_keys().len() == 0,
            r.spec_state() == (ListState { offset: 0, selected: Some(0), last: None }),
            r.spec_area() == Rect::zero_spec(),
            r.spec_sound() is None,
    {
        List {
            area: Rect { x: 0, y: 0, width: 0, height: 0 },
            state: ListState::new_first(),
            items,
            bindings: Vec::new(),
            sound: None,
        }
    }

    /// An empty list.
    pub fn empty() -> (r: Self)
        ensures
            r.spec_items().len() == 0,
            r.spec_binding_keys().len() == 0,
            r.spec_state() == (ListState { offset: 0, selected: Some(0), last: None }),
    {
        Self::new_first(Vec::new())
    }

    /// Replaces the shortcuts: each key activates the row with the label
    /// beside it.
    pub fn set_bindings(&mut self, bindings: Vec<(Key, String)>)
        ensures
            final(self).spec_binding_keys() == bindings@.map_values(|b: (Key, String)| b.0),
            final(self).spec_binding_items() == bindings@.map_values(|b: (Key, String)| b.1@),
            final(self).spec_items() == old(self).spec_items(),
            final(self).spec_state() == old(self).spec_state(),
            final(self).spec_area() == old(self).spec_area(),
    {
        self.bindings = bindings;
    }

    /// The row that shortcut `key` activates.
    pub fn match_binding(&self, key: Key) -> (r: Option<usize>)
        ensures
            r == self.spec_match_binding(key),
    {
        let mut b: usize = 0;
        while b < self.bindings.len()
            invariant
                b <= self.bindings@.len(),
                forall|j: int| 0 <= j < b ==> self.spec_binding_keys()[j] != key,
            decreases self.bindings@.len() - b,
        {
            if self.bindings[b].0 == key {
                proof {
                    assert(self.spec_binding_keys()[b as int] == self.bindings@[b as int].0);
                    lemma_first_index(self.spec_binding_keys(), key, b as int);
                }
                let mut i: usize = 0;
                while i < self.items.len()
                    invariant
                        i <= self.items@.len(),
                        b < self.bindings@.len(),
                        first_index(self.spec_binding_keys(), key) == Some(b as int),
                        forall|j: int|
                            0 <= j < i ==> self.spec_items()[j] != self.spec_binding_items()[b as int],
                    decreases self.items@.len() - i,
                {
                    if self.items[i] == self.bindings[b].1 {
                        proof {
                            assert(self.spec_items()[i as int] == self.items@[i as int]@);
                            assert(self.spec_binding_items()[b as int] == self.bindings@[b as int].1@);
                            lemma_first_index(
                                self.spec_items(),
                                self.spec_binding_items()[b as int],
                                i as int,
                            );
                        }
                        return Some(i);
                    }
                    proof {
                        assert(self.spec_items()[i as int] == self.items@[i as int]@);
                        assert(self.spec_binding_items()[b as int] == self.bindings@[b as int].1@);
                    }
                    i += 1;
                }
                proof {
                    lemma_no_index(self.spec_items(), self.spec_binding_items()[b as int]);
                }
                return None;
            }
            proof {
                assert(self.spec_binding_keys()[b as int] == self.bindings@[b as int].0);
            }
            b += 1;
        }
        proof {
            lemma_no_index(self.spec_binding_keys(), key);
        }
        None
    }

    pub fn len(&self) -> (r: usize)
        ensures
            r == self.spec_items().len(),
    {
        self.items.len()
    }

    /// The label of row `index`.
    pub fn get(&self, index: usize) -> (r: Option<&str>)
        ensures
            index < self.spec_items().len() ==> (r matches Some(s) && s@ == self.spec_items()[index as int]),
            index >= self.spec_items().len() ==> r is None,
    {
        if index < self.items.len() {
            Some(self.items[index].as_str())
        } else {
            None
        }
    }

    pub fn clear(&mut self)
        ensures
            final(self).spec_items().len() == 0,
            final(self).spec_state() == old(self).spec_state(),
            final(self).spec_binding_keys() == old(self).spec_binding_keys(),
            final(self).spec_binding_items() == old(self).spec_binding_items(),
    {
        self.items.clear();
    }

    pub fn push(&mut self, item: String)
        ensures
            final(self).spec_items() == old(self).spec_items().push(item@),
            final(self).spec_state() == old(self).spec_state(),
            final(self).spec_binding_keys() == old(self).spec_binding_keys(),
            final(self).spec_binding_items() == old(self).spec_binding_items(),
    {
        self.items.push(item);
        proof {
            assert(self.spec_items() =~= old(self).spec_items().push(item@));
        }
    }

    pub fn selected(&self) -> (r: Option<usize>)
        ensures
            r == self.spec_state().selected,
    {
        self.state.selected
    }

    pub fn select(&mut self, index: Option<usize>)
        ensures
            final(self).spec_state() == old(self).spec_state().selecting(index),
            final(self).spec_items() == old(self).spec_items(),
            final(self).spec_binding_keys() == old(self).spec_binding_keys(),
            final(self).spec_binding_items() == old(self).spec_binding_items(),
            final(self).spec_area() == old(self).spec_area(),
            final(self).spec_sound() == old(self).spec_sound(),
    {
        self.state.select(index);
    }

    /// Takes the sound that the last event asked for.
    pub fn take_sound(&mut self) -> (r: Option<Sound>)
        ensures
            r == old(self).spec_sound(),
            final(self).spec_sound() is None,
            final(self).spec_state() == old(self).spec_state(),
            final(self).spec_area() == old(self).spec_area(),
            final(self).spec_items() == old(self).spec_items(),
            final(self).spec_binding_keys() == old(self).spec_binding_keys(),
            final(self).spec_binding_items() == old(self).spec_binding_items(),
    {
        let r = self.sound;
        self.sound = None;
        r
    }

    /// The row under the cursor.
    pub fn cursor_to_item(&self, backend: &Pointer) -> (r: Option<usize>)
        ensures
            r == self.spec_state().spec_cursor_to_index(backend, self.spec_area(), self.spec_items().len() as usize),
    {
        self.state.cursor_to_index(backend, self.area, self.items.len())
    }
    /// How one input event moves the selection of a list of `len` rows
    /// drawn in `area`, the shortcut `binding` aside: the new state and the
    /// result. Moving past either end is reported instead of wrapping.
    pub open spec fn navigate(
        state: ListState,
        area: Rect,
        len: usize,
        backend: &Pointer,
        event: KeyEvent,
    ) -> (ListState, SelectResult) {
        let key = event.spec_key();
        let half = (area.height / 2) as u16;
        let sel = state.selected;
        if key.spec_is_exec() {
            (state, match sel {
                Some(i) => SelectResult::Accept(i),
                None => SelectResult::Nothing,
            })
        } else if key.spec_is_prev() {
            match sel {
                Some(i) if i > 0 => (state.moved_prev(), SelectResult::Select(state.moved_prev().selected)),
                _ => (state, SelectResult::Up),
            }
        } else if key.spec_is_next() {
            match sel {
                Some(i) if i + 1 < len => (state.moved_next(), SelectResult::Select(state.moved_next().selected)),
                _ => (state, SelectResult::Down),
            }
        } else if key.spec_is_back() {
            (state, SelectResult::Cancel)
        } else {
            let next = match key {
                Key::PageUp => Some(state.selecting(Some(clamp_usize(sel_or_first(sel) - half)))),
                Key::PageDown => Some(state.selecting(Some(clamp_usize(sel_or_first(sel) + half)))),
                Key::Char(c) if c == 'u' as u8 && event.spec_modifier().ctrl => Some(
                    state.selecting(Some(clamp_usize(sel_or_first(sel) - half))),
                ),
                Key::Char(c) if c == 'd' as u8 && event.spec_modifier().ctrl => Some(
                    state.selecting(Some(clamp_usize(sel_or_first(sel) + half))),
                ),
                Key::Home => Some(ListState { selected: Some(0), last: None, ..state }),
                Key::End => Some(state.selecting(Some(usize::MAX))),
                Key::MouseWheelUp(n) => Some(ListState { offset: clamp_usize(state.offset - n), ..state }),
                Key::MouseWheelDown(n) => Some(
                    ListState {
                        offset: min(state.offset + n, max_offset(len, area.height, 0)) as usize,
                        ..state
                    },
                ),
                _ => None,
            };
            match next {
                Some(st) => (st, SelectResult::Select(st.selected)),
                None => match key {
                    Key::Mouse(k) if k == 0 || k == 1 => match state.spec_cursor_to_index(backend, area, len) {
                        Some(i) => (state.selecting(Some(i)), if k == 0 {
                            SelectResult::Accept(i)
                        } else {
                            SelectResult::ContextMenu(i)
                        }),
                        None => (state, SelectResult::Nothing),
                    },
                    _ => (state, SelectResult::Nothing),
                },
            }
        }
    }

    /// Handles one input event: a shortcut activates its row; otherwise the
    /// selection moves as `navigate` says, with a sound when a step up or
    /// down reached a row that was not the last one moved to.
    #[verifier::rlimit(100)]
    pub fn key_event(&mut self, backend: &Pointer, event: KeyEvent) -> (r: SelectResult)
        ensures
            final(self).spec_items() == old(self).spec_items(),
            final(self).spec_binding_keys() == old(self).spec_binding_keys(),
            final(self).spec_binding_items() == old(self).spec_binding_items(),
            final(self).spec_area() == old(self).spec_area(),
            old(self).spec_match_binding(event.spec_key()) matches Some(i) ==> {
                &&& r == SelectResult::Accept(i)
                &&& final(self).spec_state() == old(self).spec_state()
                &&& final(self).spec_sound() is None
            },
            old(self).spec_match_binding(event.spec_key()) is None ==> {
                let (st, res) = Self::navigate(
                    old(self).spec_state(),
                    old(self).spec_area(),
                    old(self).spec_items().len() as usize,
                    backend,
                    event,
                );
                &&& r == res
                &&& final(self).spec_state() == st
                &&& final(self).spec_sound() == (if st.last != old(self).spec_state().last
                    && st.last == st.selected && (event.spec_key().spec_is_prev()
                    || event.spec_key().spec_is_next()) {
                    Some(if event.spec_key().spec_is_prev() {
                        Sound::SelectPrev
                    } else {
                        Sound::SelectNext
                    })
                } else {
                    None
                })
            },
    {
        self.sound = None;
        let key = event.key();
        if let Some(i) = self.match_binding(key) {
            return SelectResult::Accept(i);
        }
        let half = self.area.height / 2;
        let len = self.items.len();
        if key.is_exec() {
            return match self.state.selected {
                Some(i) => SelectResult::Accept(i),
                None => SelectResult::Nothing,
            };
        } else if key.is_prev() {
            let movable = match self.state.selected {
                Some(i) => i > 0,
                None => false,
            };
            if !movable {
                return SelectResult::Up;
            }
            self.sound = self.state.prev();
        } else if key.is_next() {
            let movable = match self.state.selected {
                Some(i) => i < len && len - i > 1,
                None => false,
            };
            if !movable {
                return SelectResult::Down;
            }
            self.sound = self.state.next();
        } else if key.is_back() {
            return SelectResult::Cancel;
        } else {
            let mut scrolled = true;
            let mut result = SelectResult::Nothing;
            match key {
                Key::PageUp => self.state.scroll_up_by(half),
                Key::PageDown => self.state.scroll_down_by(half),
                Key::Char(c) => {
                    if c == 'u' as u8 && event.ctrl() {
                        self.state.scroll_up_by(half);
                    } else if c == 'd' as u8 && event.ctrl() {
                        self.state.scroll_down_by(half);
                    } else {
                        scrolled = false;
                    }
                },
                Key::Home => self.state.select_first(),
                Key::End => self.state.select_last(),
                Key::MouseWheelUp(n) => self.state.scroll_up(n),
                Key::MouseWheelDown(n) => self.state.scroll_down(n, len, self.area, 0),
                Key::Mouse(k) => {
                    scrolled = false;
                    if k == 0 || k == 1 {
                        if let Some(i) = self.cursor_to_item(backend) {
                            self.state.select(Some(i));
                            result = if k == 0 {
                                SelectResult::Accept(i)
                            } else {
                                SelectResult::ContextMenu(i)
                            };
                        }
                    }
                },
                _ => {
                    scrolled = false;
                },
            }
            if !scrolled {
                return result;
            }
        }
        SelectResult::Select(self.state.selected)
    }

    /// Selects the row under the pointer; returns whether there is one.
    pub fn mouse_event(&mut self, backend: &Pointer) -> (r: bool)
        ensures
            final(self).spec_items() == old(self).spec_items(),
            final(self).spec_area() == old(self).spec_area(),
            ({
                let idx = old(self).spec_state().spec_cursor_to_index(
                    backend,
                    old(self).spec_area(),
                    old(self).spec_items().len() as usize,
                );
                &&& r == idx is Some
                &&& final(self).spec_state() == (if r {
                    old(self).spec_state().selecting(idx)
                } else {
                    old(self).spec_state()
                })
            }),
    {
        match self.cursor_to_item(backend) {
            Some(i) => {
                self.state.select(Some(i));
                true
            },
            None => false,
        }
    }
}

} // verus!
