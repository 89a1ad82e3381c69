use vstd::prelude::*;

verus! {

/// Where a glyph sits in its atlas and how it is placed on the baseline.
#[derive(Copy, Clone, Default, Debug, PartialEq, Eq, Structural)]
pub struct GlyphInfo {
    pub x: u16,
    pub y: u16,
    pub w: u16,
    pub h: u16,
    pub bearing_x: i16,
    pub bearing_y: i16,
}

} // verus!
