use vstd::prelude::*;

verus! {

/// A cell or pixel position on the screen.
#[derive(Copy, Clone, Debug, Default, PartialEq, Eq, Structural)]
pub struct Position {
    pub x: u16,
    pub y: u16,
}

impl Position {
    pub fn new(x: u16, y: u16) -> (r: Position)
        ensures
            r.x == x,
            r.y == y,
    {
        Position { x, y }
    }
}

/// A width and a height.
#[derive(Copy, Clone, Debug, Default, PartialEq, Eq, Structural)]
pub struct Size {
    pub width: u16,
    pub height: u16,
}

/// An axis-aligned rectangle of cells.
#[derive(Copy, Clone, Debug, Default, PartialEq, Eq, Structural)]
pub struct Rect {
    pub x: u16,
    pub y: u16,
    pub width: u16,
    pub height: u16,
}

impl Rect {
    pub open spec fn zero_spec() -> Rect {
        Rect { x: 0, y: 0, width: 0, height: 0 }
    }

    pub fn new(x: u16, y: u16, width: u16, height: u16) -> (r: Rect)
        ensures
            r == (Rect { x, y, width, height }),
    {
        Rect { x, y, width, height }
    }

    /// Whether the rectangle covers position `p`.
    pub open spec fn spec_contains(self, p: Position) -> bool {
        &&& self.x <= p.x < self.x + self.width
        &&& self.y <= p.y < self.y + self.height
    }

    pub fn contains(&self, p: Position) -> (r: bool)
        ensures
            r == self.spec_contains(p),
    {
        let right = self.x as u32 + self.width as u32;
        let bottom = self.y as u32 + self.height as u32;
        self.x <= p.x && (p.x as u32) < right && self.y <= p.y && (p.y as u32) < bottom
    }
}

} // verus!
