use vstd::prelude::*;

use crate::geometry::{Position, Rect, Size};

verus! {

/// Where the mouse is on a screen drawn as a grid of character cells.
pub struct Pointer {
    /// Screen width in pixels.
    width: u32,
    /// Screen height in pixels.
    height: u32,
    /// Size of one cell in pixels.
    cell: Size,
    /// Mouse position in pixels.
    mouse_pos: Position,
    /// Mouse position in cells.
    cursor: Position,
}

/// The cell under pixel `mouse` on a screen of `width` x `height` pixels with
/// cells of `cell`; a coordinate off the screen maps to zero.
pub open spec fn cell_at(width: u32, height: u32, cell: Size, mouse: Position) -> Position {
    Position {
        x: if mouse.x < (width as u16) { (mouse.x / cell.width) as u16 } else { 0 },
        y: if mouse.y < (height as u16) { (mouse.y / cell.height) as u16 } else { 0 },
    }
}

/// The item under row `row` of a list whose visible part starts at `offset`
/// and holds `len` items.
pub open spec fn row_item(row: int, offset: int, len: int) -> Option<usize> {
    if offset <= row < offset + len {
        Some((row - offset) as usize)
    } else {
        None
    }
}

impl Pointer {
    pub closed spec fn spec_width(&self) -> u32 {
        self.width
    }

    pub closed spec fn spec_height(&self) -> u32 {
        self.height
    }

    pub closed spec fn spec_cell(&self) -> Size {
        self.cell
    }

    pub closed spec fn spec_mouse(&self) -> Position {
        self.mouse_pos
    }

    pub closed spec fn spec_cursor(&self) -> Position {
        self.cursor
    }

    /// Cells are never empty.
    pub closed spec fn wf(&self) -> bool {
        self.cell.width > 0 && self.cell.height > 0
    }

    /// A pointer at the origin of a screen of `width` x `height` pixels.
    pub fn new(width: u32, height: u32, cell: Size) -> (r: Self)
        requires
            cell.width > 0,
            cell.height > 0,
        ensures
            r.wf(),
            r.spec_width() == width,
            r.spec_height() == height,
            r.spec_cell() == cell,
            r.spec_mouse() == (Position { x: 0, y: 0 }),
            r.spec_cursor() == (Position { x: 0, y: 0 }),
    {
        Pointer {
            width,
            height,
            cell,
            mouse_pos: Position { x: 0, y: 0 },
            cursor: Position { x: 0, y: 0 },
        }
    }

    /// Takes a new screen size or cell size; the cursor cell follows.
    pub fn resize(&mut self, width: u32, height: u32, cell: Size)
        requires
            cell.width > 0,
            cell.height > 0,
        ensures
            final(self).wf(),
            final(self).spec_width() == width,
            final(self).spec_height() == height,
            final(self).spec_cell() == cell,
            final(self).spec_mouse() == old(self).spec_mouse(),
            final(self).spec_cursor() == cell_at(width, height, cell, old(self).spec_mouse()),
    {
        self.width = width;
        self.height = height;
        self.cell = cell;
        self.cursor = self.mouse_to_cursor(self.mouse_pos);
    }

    pub fn cell_size_in_pixels(&self) -> (r: Size)
        ensures
            r == self.spec_cell(),
    {
        self.cell
    }

    /// The screen size in cells.
    pub fn size(&self) -> (r: Size)
        requires
            self.wf(),
        ensures
            r.width == (self.spec_width() as u16) / self.spec_cell().width,
            r.height == (self.spec_height() as u16) / self.spec_cell().height,
    {
        Size {
            width: (self.width as u16) / self.cell.width,
            height: (self.height as u16) / self.cell.height,
        }
    }

    pub fn cursor_position_in_pixels(&self) -> (r: Position)
        ensures
            r == self.spec_mouse(),
    {
        self.mouse_pos
    }

    pub fn cursor_position(&self) -> (r: Position)
        ensures
            r == self.spec_cursor(),
    {
        self.cursor
    }

    /// The cell under pixel position `mouse`.
    pub fn mouse_to_cursor(&self, mouse: Position) -> (r: Position)
        requires
            self.wf(),
        ensures
            r == cell_at(self.spec_width(), self.spec_height(), self.spec_cell(), mouse),
    {
        let mut cursor = Position { x: 0, y: 0 };
        if mouse.x < (self.width as u16) {
            cursor.x = mouse.x / self.cell.width;
        }
        if mouse.y < (self.height as u16) {
            cursor.y = mouse.y / self.cell.height;
        }
        cursor
    }

    /// Moves the mouse; returns whether it moved.
    pub fn set_cursor_position(&mut self, mouse: Position) -> (moved: bool)
        requires
            old(self).wf(),
        ensures
            final(self).wf(),
            moved == (mouse != old(self).spec_mouse()),
            final(self).spec_width() == old(self).spec_width(),
            final(self).spec_height() == old(self).spec_height(),
            final(self).spec_cell() == old(self).spec_cell(),
            final(self).spec_mouse() == mouse,
            moved ==> final(self).spec_cursor() == cell_at(
                old(self).spec_width(),
                old(self).spec_height(),
                old(self).spec_cell(),
                mouse,
            ),
            !moved ==> *final(self) == *old(self),
    {
        if self.mouse_pos == mouse {
            return false;
        }
        self.mouse_pos = mouse;
        self.cursor = self.mouse_to_cursor(mouse);
        true
    }

    pub fn is_cursor_in_area(&self, area: Rect) -> (r: bool)
        ensures
            r == area.spec_contains(self.spec_cursor()),
    {
        area.contains(self.cursor)
    }

    /// The item under the cursor row, the screen's first row being row
    /// `offset` of a list of `len` items.
    pub fn cursor_to_item(&self, offset: usize, len: usize) -> (r: Option<usize>)
        ensures
            r == row_item(self.spec_cursor().y as int, offset as int, len as int),
    {
        let row = self.cursor.y as usize;
        if row >= offset && row - offset < len {
            Some(row - offset)
        } else {
            None
        }
    }

    /// The item under the cursor within `area`, whose first row shows item
    /// `offset` of `len`.
    pub fn cursor_to_item_in_area(&self, offset: usize, len: usize, area: Rect) -> (r: Option<
        usize,
    >)
        ensures
            r == (if area.spec_contains(self.spec_cursor()) {
                row_item(self.spec_cursor().y - area.y, offset as int, len as int)
            } else {
                None
            }),
    {
        if self.is_cursor_in_area(area) {
            let row = (self.cursor.y - area.y) as usize;
            if row >= offset && row - offset < len {
                return Some(row - offset);
            }
        }
        None
    }
}

} // verus!
