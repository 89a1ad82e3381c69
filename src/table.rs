use vstd::prelude::*;

use crate::geometry::Rect;
use crate::input::{Key, KeyEvent};
use crate::list_state::{clamp_usize, max_offset, min, sel_or_first, ListState};
use crate::pointer::Pointer;
use crate::widgets::SelectResult;

verus! {

/// A scrollable table of rows under a one-line header.
pub struct MyTable<T> {
    /// Where the table, header included, was last drawn.
    pub area: Rect,
    pub state: ListState,
    pub items: Vec<T>,
}

/// The row of `len` under the cursor, the header taking the first line of
/// `area`.
pub open spec fn table_row_at(state: ListState, backend: &Pointer, area: Rect, len: usize) -> Option<
    usize,
> {
    let row = backend.spec_cursor().y - area.y;
    if area.spec_contains(backend.spec_cursor()) && 1 <= row && state.offset + row - 1 < len {
        Some((state.offset + row - 1) as usize)
    } else {
        None
    }
}

/// How one input event moves the selection of a table of `len` rows drawn
/// in `area`: the new state and the result. Moving past either end is
/// reported instead of wrapping.
pub open spec fn table_navigate(
    state: ListState,
    area: Rect,
    len: usize,
    backend: &Pointer,
    event: KeyEvent,
) -> (ListState, SelectResult) {
    let key = event.spec_key();
    let half = (area.height / 2) as u16;
    let sel = state.selected;
    let ctrl = event.spec_modifier().ctrl;
    if key.spec_is_exec() {
        (state, match sel {
            Some(i) => SelectResult::Accept(i),
            None => SelectResult::Nothing,
        })
    } else if key.spec_is_prev() {
        match sel {
            Some(i) if i > 0 => (
                state.selecting(Some((i - 1) as usize)),
                SelectResult::Select(Some((i - 1) as usize)),
            ),
            _ => (state, SelectResult::Up),
        }
    } else if key.spec_is_next() {
        match sel {
            Some(i) if i + 1 < len => (
                state.selecting(Some((i + 1) as usize)),
                SelectResult::Select(Some((i + 1) as usize)),
            ),
            _ => (state, SelectResult::Down),
        }
    } else if key.spec_is_back() {
        (state, SelectResult::Cancel)
    } else {
        let next = match key {
            Key::PageUp => Some(state.selecting(Some(clamp_usize(sel_or_first(sel) - half)))),
            Key::PageDown => Some(state.selecting(Some(clamp_usize(sel_or_first(sel) + half)))),
            Key::Char(c) => if c == 'u' as u8 && ctrl {
                Some(state.selecting(Some(clamp_usize(sel_or_first(sel) - half))))
            } else if c == 'd' as u8 && ctrl {
                Some(state.selecting(Some(clamp_usize(sel_or_first(sel) + half))))
            } else {
                None
            },
            Key::Home => Some(state.selecting(Some(0))),
            Key::End => Some(state.selecting(Some(usize::MAX))),
            Key::MouseWheelUp(n) => Some(ListState { offset: clamp_usize(state.offset - n), ..state }),
            Key::MouseWheelDown(n) => Some(
                ListState { offset: min(state.offset + n, max_offset(len, area.height, 1)) as usize, ..state },
            ),
            _ => None,
        };
        match next {
            Some(st) => (st, SelectResult::Select(st.selected)),
            None => match key {
                Key::Mouse(k) => if k == 0 || k == 1 {
                    match table_row_at(state, backend, area, len) {
                        Some(i) => (state.selecting(Some(i)), if k == 0 {
                            SelectResult::Accept(i)
                        } else {
                            SelectResult::ContextMenu(i)
                        }),
                        None => (state, SelectResult::Nothing),
                    }
                } else {
                    (state, SelectResult::Nothing)
                },
                _ => (state, SelectResult::Nothing),
            },
        }
    }
}

impl<T> MyTable<T> {
    /// An empty table, nothing selected.
    pub fn new() -> (r: Self)
        ensures
            r.items@.len() == 0,
            r.state == (ListState { offset: 0, selected: None, last: None }),
    {
        MyTable { area: Rect { x: 0, y: 0, width: 0, height: 0 }, state: ListState::new(), items: Vec::new() }
    }

    /// An empty table whose first row will be selected.
    pub fn new_first() -> (r: Self)
        ensures
            r.items@.len() == 0,
            r.state == (ListState { offset: 0, selected: Some(0), last: None }),
    {
        MyTable {
            area: Rect { x: 0, y: 0, width: 0, height: 0 },
            state: ListState::new_first(),
            items: Vec::new(),
        }
    }

    /// The row under the cursor.
    pub fn cursor_to_table_item(&self, backend: &Pointer) -> (r: Option<usize>)
        ensures
            r == table_row_at(self.state, backend, self.area, self.items@.len() as usize),
    {
        let offset = self.state.offset;
        let visible = self.items.len().saturating_sub(offset);
        match backend.cursor_to_item_in_area(1, visible, self.area) {
            Some(i) => Some(i + offset),
            None => None,
        }
    }

    /// Handles one input event as `table_navigate` says.
    #[verifier::rlimit(100)]
    pub fn key_event(&mut self, backend: &Pointer, event: KeyEvent) -> (r: SelectResult)
        ensures
            final(self).items@ == old(self).items@,
            final(self).area == old(self).area,
            (final(self).state, r) == table_navigate(
                old(self).state,
                old(self).area,
                old(self).items@.len() as usize,
                backend,
                event,
            ),
    {
        let key = event.key();
        let half = self.area.height / 2;
        let len = self.items.len();
        if key.is_exec() {
            return match self.state.selected {
                Some(i) => SelectResult::Accept(i),
                None => SelectResult::Nothing,
            };
        } else if key.is_prev() {
            let i = match self.state.selected {
                Some(i) => i,
                None => 0,
            };
            if i == 0 {
                return SelectResult::Up;
            }
            self.state.select(Some(i - 1));
        } else if key.is_next() {
            let movable = match self.state.selected {
                Some(i) => i < len && len - i > 1,
                None => false,
            };
            if !movable {
                return SelectResult::Down;
            }
            let i = match self.state.selected {
                Some(i) => i,
                None => 0,
            };
            self.state.select(Some(i + 1));
        } else if key.is_back() {
            return SelectResult::Cancel;
        } else {
            let mut scrolled = true;
            let mut result = SelectResult::Nothing;
            match key {
                Key::PageUp => self.state.scroll_up_by(half),
                Key::PageDown => self.state.scroll_down_by(half),
                Key::Char(c) => {
                    if c == 'u' as u8 && event.ctrl() {
                        self.state.scroll_up_by(half);
                    } else if c == 'd' as u8 && event.ctrl() {
                        self.state.scroll_down_by(half);
                    } else {
                        scrolled = false;
                    }
                },
                Key::Home => self.state.select(Some(0)),
                Key::End => self.state.select_last(),
                Key::MouseWheelUp(n) => self.state.scroll_up(n),
                Key::MouseWheelDown(n) => self.state.scroll_down(n, len, self.area, 1),
                Key::Mouse(k) => {
                    scrolled = false;
                    if k == 0 || k == 1 {
                        if let Some(i) = self.cursor_to_table_item(backend) {
                            self.state.select(Some(i));
                            result = if k == 0 {
                                SelectResult::Accept(i)
                            } else {
                                SelectResult::ContextMenu(i)
                            };
                        }
                    }
                },
                _ => {
                    scrolled = false;
                },
            }
            if !scrolled {
                return result;
            }
        }
        SelectResult::Select(self.state.selected)
    }

    /// Selects the row under the pointer; returns whether there is one.
    pub fn mouse_event(&mut self, backend: &Pointer) -> (r: bool)
        ensures
            final(self).items@ == old(self).items@,
            r == table_row_at(old(self).state, backend, old(self).area, old(self).items@.len() as usize) is Some,
            final(self).state == (match table_row_at(
                old(self).state,
                backend,
                old(self).area,
                old(self).items@.len() as usize,
            ) {
                Some(i) => old(self).state.selecting(Some(i)),
                None => old(self).state,
            }),
    {
        match self.cursor_to_table_item(backend) {
            Some(i) => {
                self.state.select(Some(i));
                true
            },
            None => false,
        }
    }
}

} // verus!
