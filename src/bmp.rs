use vstd::prelude::*;

verus! {

/// Bytes per pixel of a bitmap.
#[derive(Copy, Clone, Debug, PartialEq, Eq, Structural)]
pub enum Components {
    RGB,
    RGBA,
}

impl Components {
    pub open spec fn spec_count(self) -> nat {
        match self {
            Components::RGB => 3,
            Components::RGBA => 4,
        }
    }

    pub fn count(self) -> (r: u8)
        ensures
            r == self.spec_count(),
    {
        match self {
            Components::RGB => 3,
            Components::RGBA => 4,
        }
    }
}

/// Where pixel data starts: a 14-byte file header, then a 40-byte info header.
pub const DATA_OFFSET: u32 = 54;

/// Bytes per row: the pixels rounded up to a multiple of four.
pub open spec fn row_size(width: nat, components: Components) -> nat {
    ((width * components.spec_count() + 3) / 4 * 4) as nat
}

/// Bytes of a whole bitmap file.
pub open spec fn total_size(width: nat, height: nat, components: Components) -> nat {
    (DATA_OFFSET + row_size(width, components) * height) as nat
}

/// `v` as four little-endian bytes.
pub open spec fn le_u32(v: u32) -> Seq<u8> {
    seq![(v % 256) as u8, (v / 256 % 256) as u8, (v / 65536 % 256) as u8, (v / 16777216) as u8]
}

/// `v` as two little-endian bytes.
pub open spec fn le_u16(v: u16) -> Seq<u8> {
    seq![(v % 256) as u8, (v / 256) as u8]
}

/// `bytes` written over `data` from `offset` on.
pub open spec fn overwrite(data: Seq<u8>, offset: int, bytes: Seq<u8>) -> Seq<u8> {
    Seq::new(
        data.len(),
        |i: int|
            if offset <= i < offset + bytes.len() {
                bytes[i - offset]
            } else {
                data[i]
            },
    )
}

/// The 54 header bytes of a `width` x `height` bitmap, uncompressed.
pub open spec fn header(width: u16, height: u16, components: Components) -> Seq<u8> {
    let total = total_size(width as nat, height as nat, components);
    seq!['B' as u8, 'M' as u8] + le_u32(total as u32) + zeros(4) + le_u32(
        DATA_OFFSET,
    ) + le_u32(40) + le_u32(width as u32) + le_u32(height as u32) + le_u16(1) + le_u16(
        (components.spec_count() * 8) as u16,
    ) + zeros(24)
}

/// `n` zero bytes.
pub open spec fn zeros(n: nat) -> Seq<u8> {
    Seq::new(n, |i: int| 0u8)
}

proof fn lemma_overwrite_after(p: Seq<u8>, gap: nat, b: Seq<u8>, rest: nat)
    requires
        gap + b.len() <= rest,
    ensures
        overwrite(p + zeros(rest), (p.len() + gap) as int, b) =~= (p + zeros(gap) + b) + zeros(
            (rest - gap - b.len()) as nat,
        ),
{
}

/// The size and pixel format of a bitmap to make.
pub struct Builder {
    width: u16,
    height: u16,
    components: Components,
}

impl Builder {
    pub closed spec fn spec_width(&self) -> u16 {
        self.width
    }

    pub closed spec fn spec_height(&self) -> u16 {
        self.height
    }

    pub closed spec fn spec_components(&self) -> Components {
        self.components
    }

    /// An RGB bitmap of `width` x `height`.
    pub fn new(width: u16, height: u16) -> (r: Self)
        ensures
            r.spec_width() == width,
            r.spec_height() == height,
            r.spec_components() == Components::RGB,
    {
        Builder { width, height, components: Components::RGB }
    }

    pub fn components(self, components: Components) -> (r: Self)
        ensures
            r.spec_width() == self.spec_width(),
            r.spec_height() == self.spec_height(),
            r.spec_components() == components,
    {
        Builder { components, ..self }
    }

    /// A black bitmap file with its headers written.
    pub fn build(self) -> (r: Bmp)
        requires
            total_size(self.spec_width() as nat, self.spec_height() as nat, self.spec_components())
                <= u32::MAX,
        ensures
            r.wf(),
            r.spec_width() == self.spec_width(),
            r.spec_height() == self.spec_height(),
            r.spec_components() == self.spec_components(),
            r.spec_data() == header(self.spec_width(), self.spec_height(), self.spec_components())
                + zeros(
                (row_size(self.spec_width() as nat, self.spec_components()) * self.spec_height()) as nat,
            ),
    {
        let c = self.components.count() as u32;
        assert(self.width as u32 * c + 3 <= 262143) by (nonlinear_arith)
            requires
                self.width <= 65535,
                c <= 4,
        ;
        let row: u32 = (self.width as u32 * c + 3) / 4 * 4;
        assert(row == row_size(self.width as nat, self.components));
        assert(row as nat * self.height as nat <= u32::MAX) by {
            assert(total_size(self.width as nat, self.height as nat, self.components) <= u32::MAX);
        }
        let data_size: u32 = row * self.height as u32;
        let total: u32 = DATA_OFFSET + data_size;
        let mut bmp = Bmp {
            width: self.width,
            height: self.height,
            offset: DATA_OFFSET as usize,
            row_size: row,
            components: self.components,
            data: vec![0u8; total as usize],
        };
        let ghost n = total as nat;
        assert(bmp.data@ =~= Seq::<u8>::empty() + zeros(n));
        let magic: [u8; 2] = [66u8, 77u8];
        // file header
        bmp.write_array(0x00, &magic);
        proof { lemma_overwrite_after(Seq::empty(), 0, magic@, n); }
        let ghost p = Seq::<u8>::empty() + zeros(0) + magic@;
        bmp.write_u32(0x02, total);
        proof { lemma_overwrite_after(p, 0, le_u32(total), (n - 2) as nat); }
        let ghost p = p + zeros(0) + le_u32(total);
        bmp.write_u32(0x0a, DATA_OFFSET);
        proof { lemma_overwrite_after(p, 4, le_u32(DATA_OFFSET), (n - 6) as nat); }
        let ghost p = p + zeros(4) + le_u32(DATA_OFFSET);
        // info header
        bmp.write_u32(0x0e, 40);
        proof { lemma_overwrite_after(p, 0, le_u32(40), (n - 14) as nat); }
        let ghost p = p + zeros(0) + le_u32(40);
        bmp.write_u32(0x12, self.width as u32);
        proof { lemma_overwrite_after(p, 0, le_u32(self.width as u32), (n - 18) as nat); }
        let ghost p = p + zeros(0) + le_u32(self.width as u32);
        bmp.write_u32(0x16, self.height as u32);
        proof { lemma_overwrite_after(p, 0, le_u32(self.height as u32), (n - 22) as nat); }
        let ghost p = p + zeros(0) + le_u32(self.height as u32);
        // one color plane
        bmp.write_u16(0x1a, 1);
        proof { lemma_overwrite_after(p, 0, le_u16(1), (n - 26) as nat); }
        let ghost p = p + zeros(0) + le_u16(1);
        // bits per pixel
        bmp.write_u16(0x1c, c as u16 * 8);
        proof { lemma_overwrite_after(p, 0, le_u16((c * 8) as u16), (n - 28) as nat); }
        let ghost p = p + zeros(0) + le_u16((c * 8) as u16);
        // no compression, palette or resolution: the remaining 24 bytes stay zero
        proof {
            assert(p =~= seq!['B' as u8, 'M' as u8] + le_u32(total) + zeros(4) + le_u32(DATA_OFFSET)
                + le_u32(40) + le_u32(self.width as u32) + le_u32(self.height as u32) + le_u16(1)
                + le_u16((c * 8) as u16));
            assert(zeros((n - 30) as nat) =~= zeros(24) + zeros(data_size as nat));
            assert(bmp.data@ =~= header(self.width, self.height, self.components) + zeros(
                data_size as nat,
            ));
        }
        bmp
    }
}

/// An uncompressed bitmap file being painted.
pub struct Bmp {
    width: u16,
    height: u16,
    row_size: u32,
    components: Components,
    offset: usize,
    data: Vec<u8>,
}

/// Where pixel (`x`, `y`) starts; row zero is the bottom one.
pub open spec fn pixel_offset(row_size: nat, components: Components, x: nat, y: nat) -> nat {
    (DATA_OFFSET + row_size * y + x * components.spec_count()) as nat
}

/// `data` with pixel (`x`, `y`) set to (`r`, `g`, `b`, `a`); the alpha is
/// dropped from RGB pixels, and a pixel off the bitmap changes nothing.
pub open spec fn with_pixel(
    data: Seq<u8>,
    width: u16,
    height: u16,
    components: Components,
    x: u16,
    y: u16,
    rgba: (u8, u8, u8, u8),
) -> Seq<u8> {
    if x < width && y < height {
        let o = pixel_offset(row_size(width as nat, components), components, x as nat, y as nat);
        let (r, g, b, a) = rgba;
        match components {
            Components::RGB => overwrite(data, o as int, seq![r, g, b]),
            Components::RGBA => overwrite(data, o as int, seq![r, g, b, a]),
        }
    } else {
        data
    }
}

/// `data` after the first `k` bytes of `glyph` were painted as white pixels
/// of that alpha, `w` to a row, rows going down from row `top` and each
/// starting at column `x`.
pub open spec fn glyph_painted(
    data: Seq<u8>,
    width: u16,
    height: u16,
    components: Components,
    x: u16,
    top: int,
    w: u16,
    glyph: Seq<u8>,
    k: nat,
) -> Seq<u8>
    decreases k,
{
    if k == 0 || w == 0 {
        data
    } else {
        let i = (k - 1) as nat;
        with_pixel(
            glyph_painted(data, width, height, components, x, top, w, glyph, i),
            width,
            height,
            components,
            (x + i % (w as nat)) as u16,
            (top - i / (w as nat)) as u16,
            (255, 255, 255, glyph[i as int]),
        )
    }
}

impl Bmp {
    pub closed spec fn spec_width(&self) -> u16 {
        self.width
    }

    pub closed spec fn spec_height(&self) -> u16 {
        self.height
    }

    pub closed spec fn spec_components(&self) -> Components {
        self.components
    }

    /// The file's bytes.
    pub closed spec fn spec_data(&self) -> Seq<u8> {
        self.data@
    }

    /// The layout fields agree with the size and the bytes fill it.
    pub closed spec fn wf(&self) -> bool {
        &&& self.offset == DATA_OFFSET
        &&& self.row_size == row_size(self.width as nat, self.components)
        &&& self.data@.len() == total_size(self.width as nat, self.height as nat, self.components)
        &&& self.data@.len() <= u32::MAX
    }

    pub fn builder(width: u16, height: u16) -> (r: Builder)
        ensures
            r.spec_width() == width,
            r.spec_height() == height,
            r.spec_components() == Components::RGB,
    {
        Builder::new(width, height)
    }

    pub fn as_slice(&self) -> (r: &[u8])
        ensures
            r@ == self.spec_data(),
    {
        self.data.as_slice()
    }

    pub fn width(&self) -> (r: u16)
        ensures
            r == self.spec_width(),
    {
        self.width
    }

    pub fn height(&self) -> (r: u16)
        ensures
            r == self.spec_height(),
    {
        self.height
    }

    fn write_array(&mut self, offset: usize, bytes: &[u8])
        requires
            offset + bytes@.len() <= old(self).data@.len(),
        ensures
            final(self).data@ == overwrite(old(self).data@, offset as int, bytes@),
            final(self).width == old(self).width,
            final(self).height == old(self).height,
            final(self).components == old(self).components,
            final(self).offset == old(self).offset,
            final(self).row_size == old(self).row_size,
    {
        let mut i: usize = 0;
        assert(self.data@.len() == self.data.len());
        while i < bytes.len()
            invariant
                i <= bytes@.len(),
                self.data@.len() <= usize::MAX,
                offset + bytes@.len() <= self.data@.len(),
                self.data@ == overwrite(old(self).data@, offset as int, bytes@.subrange(0, i as int)),
                self.width == old(self).width,
                self.height == old(self).height,
                self.components == old(self).components,
                self.offset == old(self).offset,
                self.row_size == old(self).row_size,
            decreases bytes@.len() - i,
        {
            assert(self.data@.len() == old(self).data@.len());
            self.data.set(offset + i, bytes[i]);
            i += 1;
            assert(self.data@ =~= overwrite(old(self).data@, offset as int, bytes@.subrange(0, i as int)));
        }
        assert(bytes@.subrange(0, i as int) =~= bytes@);
    }

    fn write_u16(&mut self, offset: usize, value: u16)
        requires
            offset + 2 <= old(self).data@.len(),
        ensures
            final(self).data@ == overwrite(old(self).data@, offset as int, le_u16(value)),
            final(self).width == old(self).width,
            final(self).height == old(self).height,
            final(self).components == old(self).components,
            final(self).offset == old(self).offset,
            final(self).row_size == old(self).row_size,
    {
        let bytes: [u8; 2] = [(value % 256) as u8, (value / 256) as u8];
        assert(bytes@ =~= le_u16(value));
        self.write_array(offset, &bytes);
    }

    fn write_u32(&mut self, offset: usize, value: u32)
        requires
            offset + 4 <= old(self).data@.len(),
        ensures
            final(self).data@ == overwrite(old(self).data@, offset as int, le_u32(value)),
            final(self).width == old(self).width,
            final(self).height == old(self).height,
            final(self).components == old(self).components,
            final(self).offset == old(self).offset,
            final(self).row_size == old(self).row_size,
    {
        let bytes: [u8; 4] = [
            (value % 256) as u8,
            (value / 256 % 256) as u8,
            (value / 65536 % 256) as u8,
            (value / 16777216) as u8,
        ];
        assert(bytes@ =~= le_u32(value));
        self.write_array(offset, &bytes);
    }
    /// Sets pixel (`x`, `y`), row zero at the bottom; the alpha is dropped
    /// from RGB pixels and a pixel off the bitmap is left alone.
    pub fn set_pixel(&mut self, x: u16, y: u16, r: u8, g: u8, b: u8, a: u8)
        requires
            old(self).wf(),
        ensures
            final(self).wf(),
            final(self).spec_width() == old(self).spec_width(),
            final(self).spec_height() == old(self).spec_height(),
            final(self).spec_components() == old(self).spec_components(),
            final(self).spec_data() == with_pixel(
                old(self).spec_data(),
                old(self).spec_width(),
                old(self).spec_height(),
                old(self).spec_components(),
                x,
                y,
                (r, g, b, a),
            ),
    {
        if x >= self.width || y >= self.height {
            return;
        }
        let c = self.components.count() as usize;
        proof {
            let rs = self.row_size as nat;
            assert(rs * (y as nat) + (x as nat) * c + c <= rs * (self.height as nat)) by (nonlinear_arith)
                requires
                    y < self.height,
                    x < self.width,
                    rs == ((self.width as nat) * c + 3) / 4 * 4,
                    c == 3 || c == 4,
            {
                let (xn, wn, yn, hn) = (x as nat, self.width as nat, y as nat, self.height as nat);
                assert(xn * c + c <= wn * c) by (nonlinear_arith)
                    requires
                        xn + 1 <= wn,
                        c == 3 || c == 4,
                ;
                vstd::arithmetic::mul::lemma_mul_inequality((yn + 1) as int, hn as int, rs as int);
                vstd::arithmetic::mul::lemma_mul_is_distributive_add(rs as int, yn as int, 1);
            }
        }
        let offset = self.offset + self.row_size as usize * (y as usize) + (x as usize) * c;
        match self.components {
            Components::RGB => {
                let px: [u8; 3] = [r, g, b];
                self.write_array(offset, &px);
            },
            Components::RGBA => {
                let px: [u8; 4] = [r, g, b, a];
                self.write_array(offset, &px);
            },
        }
    }
    /// Paints a `w` x `h` glyph whose top-left pixel is `y` rows below the
    /// top edge and `x` columns right of the left one: white, with the
    /// glyph's bytes, row by row, as alpha. Painting stops where the bytes
    /// run out.
    pub fn fill_glyph(&mut self, x: u16, y: u16, w: u16, h: u16, data: &[u8])
        requires
            old(self).wf(),
            y + h <= old(self).spec_height(),
            x + w <= u16::MAX,
        ensures
            final(self).wf(),
            final(self).spec_width() == old(self).spec_width(),
            final(self).spec_height() == old(self).spec_height(),
            final(self).spec_components() == old(self).spec_components(),
            final(self).spec_data() == glyph_painted(
                old(self).spec_data(),
                old(self).spec_width(),
                old(self).spec_height(),
                old(self).spec_components(),
                x,
                old(self).spec_height() - y - 1,
                w,
                data@,
                if data@.len() < w * h {
                    data@.len()
                } else {
                    (w * h) as nat
                },
            ),
    {
        let y0 = self.height - y - h;
        let ghost top: int = self.height - y - 1;
        let mut k: usize = 0;
        let mut row: u16 = 0;
        while row < h
            invariant
                self.wf(),
                self.width == old(self).width,
                self.height == old(self).height,
                self.components == old(self).components,
                y0 == old(self).height - y - h,
                top == y0 + h - 1,
                row <= h,
                k == row * w,
                k <= data@.len(),
                x + w <= u16::MAX,
                self.data@ == glyph_painted(
                    old(self).data@,
                    self.width,
                    self.height,
                    self.components,
                    x,
                    top,
                    w,
                    data@,
                    k as nat,
                ),
            decreases h - row,
        {
            let yy = y0 + h - 1 - row;
            let mut col: u16 = 0;
            while col < w
                invariant
                    self.wf(),
                    self.width == old(self).width,
                    self.height == old(self).height,
                    self.components == old(self).components,
                    row < h,
                    col <= w,
                    k == row * w + col,
                    k <= data@.len(),
                    x + w <= u16::MAX,
                    yy == top - row,
                    top == old(self).height - y - 1,
                    self.data@ == glyph_painted(
                        old(self).data@,
                        self.width,
                        self.height,
                        self.components,
                        x,
                        top,
                        w,
                        data@,
                        k as nat,
                    ),
                decreases w - col,
            {
                if k >= data.len() {
                    assert(row * w + col < w * h) by (nonlinear_arith)
                        requires
                            row < h,
                            col < w,
                    ;
                    return;
                }
                proof {
                    vstd::arithmetic::div_mod::lemma_fundamental_div_mod_converse(
                        k as int,
                        w as int,
                        row as int,
                        col as int,
                    );
                }
                self.set_pixel(x + col, yy, 255, 255, 255, data[k]);
                k += 1;
                col += 1;
            }
            proof {
                vstd::arithmetic::mul::lemma_mul_is_distributive_add_other_way(w as int, row as int, 1);
            }
            row += 1;
        }
        assert(k == w * h) by (nonlinear_arith)
            requires
                k == row * w,
                row == h,
        ;
    }
}

} // verus!
