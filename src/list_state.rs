use vstd::prelude::*;

use crate::geometry::Rect;
use crate::pointer::Pointer;
use crate::sound::Sound;

verus! {

/// Selection and scroll offset of a list or a table.
#[derive(Copy, Clone, Debug, Default, PartialEq, Eq, Structural)]
pub struct ListState {
    /// The first row shown.
    pub offset: usize,
    /// The selected row; past the end until drawing brings it back.
    pub selected: Option<usize>,
    /// The selection that the last move sound was played for.
    pub last: Option<usize>,
}

/// The highest offset that still fills a view of `height` rows, `extra` of
/// them reserved, with `len` rows of content.
pub open spec fn max_offset(len: usize, height: u16, extra: usize) -> int {
    let visible = if height as int >= extra as int { height as int - extra as int } else { 0 };
    if len as int >= visible { len as int - visible } else { 0 }
}

pub open spec fn min(a: int, b: int) -> int {
    if a <= b { a } else { b }
}

/// `i` brought into the range of `usize`.
pub open spec fn clamp_usize(i: int) -> usize {
    if i < 0 {
        0
    } else if i > usize::MAX {
        usize::MAX
    } else {
        i as usize
    }
}

/// The selected row, or the first when nothing is selected.
pub open spec fn sel_or_first(sel: Option<usize>) -> int {
    match sel {
        Some(i) => i as int,
        None => 0,
    }
}

impl ListState {
    /// The state after selecting `index`; selecting nothing resets the scroll.
    pub open spec fn selecting(self, index: Option<usize>) -> ListState {
        ListState { selected: index, offset: if index is None { 0 } else { self.offset }, ..self }
    }

    /// The state after a move to the previous row.
    pub open spec fn moved_prev(self) -> ListState {
        let sel = Some(
            match self.selected {
                Some(i) => clamp_usize(i - 1),
                None => usize::MAX,
            },
        );
        ListState { selected: sel, last: sel, ..self }
    }

    /// The state after a move to the next row.
    pub open spec fn moved_next(self) -> ListState {
        let sel = Some(
            match self.selected {
                Some(i) => clamp_usize(i + 1),
                None => 0,
            },
        );
        ListState { selected: sel, last: sel, ..self }
    }

    /// The row of `len` shown in `area` that lies under the cursor.
    pub open spec fn spec_cursor_to_index(self, backend: &Pointer, area: Rect, len: usize) -> Option<
        usize,
    > {
        let row = backend.spec_cursor().y - area.y;
        if area.spec_contains(backend.spec_cursor()) && self.offset + row < len {
            Some((self.offset + row) as usize)
        } else {
            None
        }
    }

    /// Nothing selected, no scroll.
    pub fn new() -> (r: Self)
        ensures
            r == (ListState { offset: 0, selected: None, last: None }),
    {
        ListState { offset: 0, selected: None, last: None }
    }

    /// The first row selected, no scroll.
    pub fn new_first() -> (r: Self)
        ensures
            r == (ListState { offset: 0, selected: Some(0), last: None }),
    {
        ListState { offset: 0, selected: Some(0), last: None }
    }

    pub fn offset(&self) -> (r: usize)
        ensures
            r == self.offset,
    {
        self.offset
    }

    pub fn selected(&self) -> (r: Option<usize>)
        ensures
            r == self.selected,
    {
        self.selected
    }

    /// Selects `index`; selecting nothing also resets the scroll.
    pub fn select(&mut self, index: Option<usize>)
        ensures
            *final(self) == old(self).selecting(index),
    {
        self.selected = index;
        if index.is_none() {
            self.offset = 0;
        }
    }

    /// Selects the first row and forgets the last move.
    pub fn select_first(&mut self)
        ensures
            *final(self) == (ListState { selected: Some(0), last: None, ..*old(self) }),
    {
        self.select(Some(0));
        self.last = None;
    }

    /// Selects the last row: the highest index, which drawing brings back
    /// into the list.
    pub fn select_last(&mut self)
        ensures
            *final(self) == old(self).selecting(Some(usize::MAX)),
    {
        self.select(Some(usize::MAX));
    }

    /// Moves the selection down by `amount` rows.
    pub fn scroll_down_by(&mut self, amount: u16)
        ensures
            *final(self) == old(self).selecting(
                Some(clamp_usize(sel_or_first(old(self).selected) + amount)),
            ),
    {
        let selected = match self.selected {
            Some(i) => i,
            None => 0,
        };
        self.select(Some(selected.saturating_add(amount as usize)));
    }

    /// Moves the selection up by `amount` rows.
    pub fn scroll_up_by(&mut self, amount: u16)
        ensures
            *final(self) == old(self).selecting(
                Some(clamp_usize(sel_or_first(old(self).selected) - amount)),
            ),
    {
        let selected = match self.selected {
            Some(i) => i,
            None => 0,
        };
        self.select(Some(selected.saturating_sub(amount as usize)));
    }

    /// Selects the previous row; returns the sound to play when the
    /// selection differs from the one last moved to.
    pub fn prev(&mut self) -> (s: Option<Sound>)
        ensures
            *final(self) == old(self).moved_prev(),
            s == (if old(self).last != final(self).selected {
                Some(Sound::SelectPrev)
            } else {
                None
            }),
    {
        let previous = match self.selected {
            Some(i) => i.saturating_sub(1),
            None => usize::MAX,
        };
        self.select(Some(previous));
        if self.last != self.selected {
            self.last = self.selected;
            Some(Sound::SelectPrev)
        } else {
            None
        }
    }

    /// Selects the next row; returns the sound to play when the selection
    /// differs from the one last moved to.
    pub fn next(&mut self) -> (s: Option<Sound>)
        ensures
            *final(self) == old(self).moved_next(),
            s == (if old(self).last != final(self).selected {
                Some(Sound::SelectNext)
            } else {
                None
            }),
    {
        let next = match self.selected {
            Some(i) => i.saturating_add(1),
            None => 0,
        };
        self.select(Some(next));
        if self.last != self.selected {
            self.last = self.selected;
            Some(Sound::SelectNext)
        } else {
            None
        }
    }

    /// Scrolls the view up by `n` rows.
    pub fn scroll_up(&mut self, n: u16)
        ensures
            *final(self) == (ListState { offset: clamp_usize(old(self).offset - n), ..*old(self) }),
    {
        self.offset = self.offset.saturating_sub(n as usize);
    }

    /// Scrolls the view down by `n` rows, no further than the last full page
    /// of `len` rows in `area`, `extra` rows of it reserved.
    pub fn scroll_down(&mut self, n: u16, len: usize, area: Rect, extra: usize)
        ensures
            *final(self) == (ListState {
                offset: min(old(self).offset + n, max_offset(len, area.height, extra)) as usize,
                ..*old(self)
            }),
    {
        let max = len.saturating_sub((area.height as usize).saturating_sub(extra));
        let moved = self.offset.saturating_add(n as usize);
        self.offset = if moved < max { moved } else { max };
    }

    /// The row of `len` shown in `area` that lies under the cursor.
    pub fn cursor_to_index(&self, backend: &Pointer, area: Rect, len: usize) -> (r: Option<usize>)
        ensures
            r == self.spec_cursor_to_index(backend, area, len),
    {
        let visible = len.saturating_sub(self.offset);
        match backend.cursor_to_item_in_area(0, visible, area) {
            Some(row) => Some(self.offset + row),
            None => None,
        }
    }
}

} // verus!
