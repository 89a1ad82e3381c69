use vstd::prelude::*;

use unicode_width::UnicodeWidthStr;

verus! {

/// The number of terminal columns that text `s` takes.
pub uninterp spec fn text_width(s: Seq<char>) -> usize;

/// Relies on `unicode_width::UnicodeWidthStr::width`: the column width of a
/// string, a function of its characters; an empty string takes none.
#[verifier::external_body]
pub(crate) fn str_width(s: &str) -> (r: usize)
    ensures
        r == text_width(s@),
        s@.len() == 0 ==> r == 0,
{
    s.width()
}

} // verus!

verus! {

/// The characters of `s`, in order.
pub(crate) fn chars_of(s: &str) -> (r: Vec<char>)
    ensures
        r@ == s@,
{
    let n = s.unicode_len();
    let mut out: Vec<char> = Vec::with_capacity(n);
    let mut i: usize = 0;
    while i < n
        invariant
            n == s@.len(),
            i <= n,
            out@ == s@.subrange(0, i as int),
        decreases n - i,
    {
        out.push(s.get_char(i));
        i += 1;
        assert(out@ =~= s@.subrange(0, i as int));
    }
    assert(s@.subrange(0, n as int) =~= s@);
    out
}

/// Relies on `String::from_iter` over characters: the string of `chars`.
#[verifier::external_body]
pub(crate) fn string_of(chars: &[char]) -> (r: String)
    ensures
        r@ == chars@,
{
    String::from_iter(chars.iter())
}

} // verus!

verus! {

/// Whether `v` is a Unicode scalar value.
pub open spec fn is_scalar(v: u32) -> bool {
    v < 0xD800 || (0xE000 <= v && v < 0x110000)
}

/// Relies on `char::from_u32`: the character of a Unicode scalar value,
/// nothing for any other number.
#[verifier::external_body]
pub(crate) fn char_from_u32(v: u32) -> (r: Option<char>)
    ensures
        r is Some <==> is_scalar(v),
        r matches Some(c) ==> c as u32 == v,
{
    char::from_u32(v)
}

/// The text that UTF-16 code units decode to, each unpaired surrogate
/// replaced by U+FFFD.
pub uninterp spec fn utf16_lossy(units: Seq<u16>) -> Seq<char>;

/// Relies on `String::from_utf16_lossy`: decodes UTF-16, replacing what is
/// invalid.
#[verifier::external_body]
pub(crate) fn decode_utf16_lossy(units: &[u16]) -> (r: String)
    ensures
        r@ == utf16_lossy(units@),
        units@.len() == 0 ==> r@.len() == 0,
{
    String::from_utf16_lossy(units)
}

/// The text that bytes decode to as UTF-8, each invalid sequence replaced
/// by U+FFFD.
pub uninterp spec fn utf8_lossy(bytes: Seq<u8>) -> Seq<char>;

/// Relies on `String::from_utf8_lossy`: decodes UTF-8, replacing what is
/// invalid.
#[verifier::external_body]
pub(crate) fn decode_utf8_lossy(bytes: &[u8]) -> (r: String)
    ensures
        r@ == utf8_lossy(bytes@),
        bytes@.len() == 0 ==> r@.len() == 0,
{
    String::from_utf8_lossy(bytes).into_owned()
}

} // verus!

verus! {

/// The bytes of `data` from `start` on.
pub(crate) fn slice_from(data: &[u8], start: usize) -> (r: &[u8])
    requires
        start <= data@.len(),
    ensures
        r@ == data@.subrange(start as int, data@.len() as int),
{
    vstd::slice::slice_subrange(data, start, data.len())
}

} // verus!

verus! {

/// Whether `c` has the Unicode White_Space property.
pub open spec fn white_space(c: char) -> bool {
    let v = c as u32;
    ||| 0x09 <= v <= 0x0d
    ||| v == 0x20
    ||| v == 0x85
    ||| v == 0xa0
    ||| v == 0x1680
    ||| 0x2000 <= v <= 0x200a
    ||| v == 0x2028
    ||| v == 0x2029
    ||| v == 0x202f
    ||| v == 0x205f
    ||| v == 0x3000
}

/// Whether `c` has the Unicode White_Space property, as
/// `char::is_whitespace` says.
pub(crate) fn is_white_space(c: char) -> (r: bool)
    ensures
        r == white_space(c),
{
    let v = c as u32;
    (0x09 <= v && v <= 0x0d) || v == 0x20 || v == 0x85 || v == 0xa0 || v == 0x1680 || (0x2000 <= v
        && v <= 0x200a) || v == 0x2028 || v == 0x2029 || v == 0x202f || v == 0x205f || v == 0x3000
}

/// `s` without white space at either end.
pub open spec fn trimmed(s: Seq<char>) -> Seq<char>
    decreases s.len(),
{
    if s.len() == 0 {
        s
    } else if white_space(s[0]) {
        trimmed(s.subrange(1, s.len() as int))
    } else if white_space(s.last()) {
        trimmed(s.drop_last())
    } else {
        s
    }
}

/// Removes white space at both ends of `s`.
pub(crate) fn trim(s: &str) -> (r: String)
    ensures
        r@ == trimmed(s@),
{
    let cs = chars_of(s);
    let mut start: usize = 0;
    let mut end: usize = cs.len();
    let mut done = false;
    assert(s@.subrange(0, s@.len() as int) =~= s@);
    while start < end && !done
        invariant
            cs@ == s@,
            start <= end <= cs@.len(),
            trimmed(s@) == trimmed(s@.subrange(start as int, end as int)),
            done ==> trimmed(s@) == s@.subrange(start as int, end as int),
        decreases end - start + (if done { 0int } else { 1int }),
    {
        let sub = Ghost(s@.subrange(start as int, end as int));
        if is_white_space(cs[start]) {
            assert(sub@.subrange(1, sub@.len() as int) =~= s@.subrange(start + 1, end as int));
            start += 1;
        } else if is_white_space(cs[end - 1]) {
            assert(sub@.drop_last() =~= s@.subrange(start as int, end - 1));
            end -= 1;
        } else {
            done = true;
        }
    }
    assert(trimmed(s@) == s@.subrange(start as int, end as int));
    let mut out: Vec<char> = Vec::new();
    let mut i: usize = start;
    while i < end
        invariant
            cs@ == s@,
            start <= i <= end <= cs@.len(),
            out@ == s@.subrange(start as int, i as int),
        decreases end - i,
    {
        out.push(cs[i]);
        i += 1;
        assert(out@ =~= s@.subrange(start as int, i as int));
    }
    string_of(out.as_slice())
}

/// Text as `str::to_lowercase` makes it.
pub uninterp spec fn lower_of(s: Seq<char>) -> Seq<char>;

/// Relies on `str::to_lowercase`: the lowercase form of each character; an
/// empty text stays empty.
#[verifier::external_body]
pub(crate) fn to_lowercase(s: &str) -> (r: String)
    ensures
        r@ == lower_of(s@),
        s@.len() == 0 ==> r@.len() == 0,
{
    s.to_lowercase()
}

/// Text with the game's color codes taken out: each `^` followed by an
/// ASCII digit, read from left to right.
pub open spec fn color_trimmed(s: Seq<char>) -> Seq<char>
    decreases s.len(),
{
    if s.len() == 0 {
        s
    } else if s.len() >= 2 && s[0] == '^' && '0' <= s[1] <= '9' {
        color_trimmed(s.subrange(2, s.len() as int))
    } else {
        seq![s[0]] + color_trimmed(s.subrange(1, s.len() as int))
    }
}

/// Relies on `xash3d_protocol::color::trim_color`: removes color codes.
#[verifier::external_body]
pub(crate) fn trim_color(s: &str) -> (r: String)
    ensures
        r@ == color_trimmed(s@),
{
    xash3d_protocol::color::trim_color(s).into_owned()
}

} // verus!
