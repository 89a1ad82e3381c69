use maintui::{Bmp, Components, GlyphInfo};

#[test]
fn header_of_an_rgb_bitmap() {
    let b = Bmp::builder(3, 2).build();
    let d = b.as_slice();
    // rows of 9 bytes padded to 12
    assert_eq!(d.len(), 54 + 24);
    assert_eq!(&d[0..2], b"BM");
    assert_eq!(&d[2..6], &78u32.to_le_bytes());
    assert_eq!(&d[10..14], &54u32.to_le_bytes());
    assert_eq!(&d[14..18], &40u32.to_le_bytes());
    assert_eq!(&d[18..22], &3u32.to_le_bytes());
    assert_eq!(&d[22..26], &2u32.to_le_bytes());
    assert_eq!(&d[26..28], &1u16.to_le_bytes());
    assert_eq!(&d[28..30], &24u16.to_le_bytes());
    assert!(d[30..].iter().all(|&x| x == 0));
    assert_eq!((b.width(), b.height()), (3, 2));
}

#[test]
fn pixels_and_glyphs() {
    let mut b = Bmp::builder(4, 3).components(Components::RGBA).build();
    assert_eq!(b.as_slice()[28], 32);
    b.set_pixel(1, 2, 10, 20, 30, 40);
    let o = 54 + 16 * 2 + 4;
    assert_eq!(&b.as_slice()[o..o + 4], &[10, 20, 30, 40]);
    // off the bitmap: nothing changes
    let before = b.as_slice().to_vec();
    b.set_pixel(4, 0, 1, 1, 1, 1);
    assert_eq!(b.as_slice(), &before[..]);
    // a 2x2 glyph at the top-left corner, one byte short
    b.fill_glyph(0, 0, 2, 2, &[7, 8, 9]);
    let px = |x: usize, y: usize| {
        let o = 54 + 16 * y + 4 * x;
        b.as_slice()[o..o + 4].to_vec()
    };
    assert_eq!(px(0, 2), vec![255, 255, 255, 7]);
    assert_eq!(px(1, 2), vec![255, 255, 255, 8]);
    assert_eq!(px(0, 1), vec![255, 255, 255, 9]);
    assert_eq!(px(1, 1), vec![0, 0, 0, 0]);
    let g = GlyphInfo::default();
    assert_eq!(g.w, 0);
}
