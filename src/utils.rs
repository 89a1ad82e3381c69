use vstd::prelude::*;

use crate::text::{str_width, string_of, text_width};

verus! {

/// The decimal digits of `n`.
pub open spec fn decimal(n: nat) -> Seq<char>
    decreases n,
{
    if n < 10 {
        seq![digit_char(n)]
    } else {
        decimal(n / 10).push(digit_char(n % 10))
    }
}

pub open spec fn digit_char(d: nat) -> char {
    if d == 0 { '0' }
    else if d == 1 { '1' }
    else if d == 2 { '2' }
    else if d == 3 { '3' }
    else if d == 4 { '4' }
    else if d == 5 { '5' }
    else if d == 6 { '6' }
    else if d == 7 { '7' }
    else if d == 8 { '8' }
    else { '9' }
}

fn digit(d: u128) -> (c: char)
    requires
        d < 10,
    ensures
        c == digit_char(d as nat),
{
    if d == 0 { '0' }
    else if d == 1 { '1' }
    else if d == 2 { '2' }
    else if d == 3 { '3' }
    else if d == 4 { '4' }
    else if d == 5 { '5' }
    else if d == 6 { '6' }
    else if d == 7 { '7' }
    else if d == 8 { '8' }
    else { '9' }
}

/// Appends the decimal digits of `n` to `out`.
fn push_decimal(out: &mut Vec<char>, n: u128)
    ensures
        final(out)@ == old(out)@ + decimal(n as nat),
    decreases n,
{
    if n < 10 {
        out.push(digit(n));
    } else {
        push_decimal(out, n / 10);
        out.push(digit(n % 10));
    }
    proof {
        if n >= 10 {
            assert(final(out)@ =~= old(out)@ + decimal(n as nat));
        }
    }
}

/// The unit of a byte count: the largest power of 1024 up to PiB that it
/// reaches.
pub open spec fn unit_index(size: nat) -> nat {
    if size < 1024 { 0 }
    else if size < 1048576 { 1 }
    else if size < 1073741824 { 2 }
    else if size < 1099511627776 { 3 }
    else if size < 1125899906842624 { 4 }
    else { 5 }
}

pub open spec fn unit_divisor(i: nat) -> nat {
    if i == 0 { 1 }
    else if i == 1 { 1024 }
    else if i == 2 { 1048576 }
    else if i == 3 { 1073741824 }
    else if i == 4 { 1099511627776 }
    else { 1125899906842624 }
}

pub open spec fn unit_name(i: nat) -> Seq<char> {
    if i == 0 { seq!['B'] }
    else if i == 1 { seq!['K', 'i', 'B'] }
    else if i == 2 { seq!['M', 'i', 'B'] }
    else if i == 3 { seq!['G', 'i', 'B'] }
    else if i == 4 { seq!['T', 'i', 'B'] }
    else { seq!['P', 'i', 'B'] }
}

/// `n / d` to the nearest integer, a tie going to the even one.
pub open spec fn round_div(n: nat, d: nat) -> nat
    recommends
        d > 0,
{
    let q = n / d;
    let r = n % d;
    if 2 * r > d || (2 * r == d && q % 2 == 1) {
        q + 1
    } else {
        q
    }
}

/// A byte count for people: in the largest unit it reaches, with one
/// decimal unless the fraction is under a tenth.
pub open spec fn pretty_size_text(size: nat) -> Seq<char> {
    let i = unit_index(size);
    let d = unit_divisor(i);
    let number = if (size % d) * 10 < d {
        decimal(size / d)
    } else {
        let t = round_div(size * 10, d);
        decimal(t / 10).push('.') + decimal(t % 10)
    };
    number.push(' ') + unit_name(i)
}

/// Writes a byte count for people, as "1.5 KiB".
pub fn pretty_size(size: u64) -> (r: String)
    ensures
        r@ == pretty_size_text(size as nat),
{
    let s = size as u128;
    let (i, d): (u128, u128) = if s < 1024 {
        (0, 1)
    } else if s < 1048576 {
        (1, 1024)
    } else if s < 1073741824 {
        (2, 1048576)
    } else if s < 1099511627776 {
        (3, 1073741824)
    } else if s < 1125899906842624 {
        (4, 1099511627776)
    } else {
        (5, 1125899906842624)
    };
    assert(i == unit_index(size as nat) && d == unit_divisor(i as nat));
    let mut out: Vec<char> = Vec::new();
    if (s % d) * 10 < d {
        push_decimal(&mut out, s / d);
    } else {
        let n = s * 10;
        let q = n / d;
        let rem = n % d;
        let t = if 2 * rem > d || (2 * rem == d && q % 2 == 1) {
            q + 1
        } else {
            q
        };
        assert(t == round_div(size as nat * 10, d as nat));
        push_decimal(&mut out, t / 10);
        out.push('.');
        push_decimal(&mut out, t % 10);
    }
    out.push(' ');
    let ghost number = out@;
    if i == 0 {
        out.push('B');
    } else {
        if i == 1 {
            out.push('K');
        } else if i == 2 {
            out.push('M');
        } else if i == 3 {
            out.push('G');
        } else if i == 4 {
            out.push('T');
        } else {
            out.push('P');
        }
        out.push('i');
        out.push('B');
    }
    assert(out@ =~= number + unit_name(i as nat));
    string_of(out.as_slice())
}

/// How many lines text `s` takes when words (split at spaces) wrap at
/// `width` columns, `widths` being the column widths of its words.
pub open spec fn wrapped_lines(widths: Seq<nat>, width: nat) -> nat {
    wrap_from(widths, width, 0, 1, 0)
}

/// Lines used so far, `lines`, and columns used on the last one, `w`, after
/// words before `i`; then the words from `i` on.
pub open spec fn wrap_from(widths: Seq<nat>, width: nat, i: int, lines: nat, w: nat) -> nat
    decreases widths.len() - i,
{
    if i < 0 || i >= widths.len() {
        lines
    } else {
        let x = widths[i];
        let (l, c) = if w + x > width { (lines + 1, 0nat) } else { (lines, w) };
        wrap_from(widths, width, i + 1, l, c + x + 1)
    }
}

/// The pieces of `s` between spaces.
pub open spec fn space_pieces(s: Seq<char>) -> Seq<Seq<char>>
    decreases s.len(),
{
    if s.len() == 0 {
        seq![Seq::empty()]
    } else {
        let prev = space_pieces(s.drop_last());
        if s.last() == ' ' {
            prev.push(Seq::empty())
        } else {
            prev.update(prev.len() - 1, prev.last().push(s.last()))
        }
    }
}

} // verus!

verus! {

/// The column widths of the pieces of `s` between spaces.
pub open spec fn piece_widths(s: Seq<char>) -> Seq<nat> {
    Seq::new(space_pieces(s).len(), |i: int| text_width(space_pieces(s)[i]) as nat)
}

proof fn lemma_pieces_nonempty(s: Seq<char>)
    ensures
        space_pieces(s).len() >= 1,
    decreases s.len(),
{
    if s.len() > 0 {
        lemma_pieces_nonempty(s.drop_last());
    }
}

/// Splits `s` at each space.
fn split_spaces(s: &[char]) -> (r: Vec<String>)
    ensures
        r@.map_values(|f: String| f@) == space_pieces(s@),
{
    let mut pieces: Vec<String> = Vec::new();
    let mut cur: Vec<char> = Vec::new();
    let mut i: usize = 0;
    while i < s.len()
        invariant
            i <= s@.len(),
            pieces@.map_values(|f: String| f@).push(cur@) == space_pieces(s@.subrange(0, i as int)),
        decreases s@.len() - i,
    {
        let c = s[i];
        let ghost prefix = s@.subrange(0, i + 1);
        assert(prefix.drop_last() =~= s@.subrange(0, i as int));
        proof {
            lemma_pieces_nonempty(s@.subrange(0, i as int));
        }
        if c == ' ' {
            let ghost before = pieces@.map_values(|f: String| f@);
            let done = string_of(cur.as_slice());
            pieces.push(done);
            cur = Vec::new();
            assert(pieces@.map_values(|f: String| f@) =~= before.push(done@));
            assert(pieces@.map_values(|f: String| f@).push(cur@) =~= space_pieces(prefix));
        } else {
            cur.push(c);
            assert(pieces@.map_values(|f: String| f@).push(cur@) =~= space_pieces(prefix));
        }
        i += 1;
    }
    assert(s@.subrange(0, s@.len() as int) =~= s@);
    let ghost before = pieces@.map_values(|f: String| f@);
    let last = string_of(cur.as_slice());
    pieces.push(last);
    assert(pieces@.map_values(|f: String| f@) =~= before.push(last@));
    pieces
}

/// How many lines `s` takes when its words wrap at `width` columns, as a
/// hint under a list is laid out.
pub fn count_lines(s: &str, width: u16) -> (r: u128)
    ensures
        r == wrapped_lines(piece_widths(s@), width as nat),
{
    let cs = crate::text::chars_of(s);
    let pieces = split_spaces(cs.as_slice());
    let ghost widths = piece_widths(s@);
    let mut lines: u128 = 1;
    let mut w: u128 = 0;
    let mut i: usize = 0;
    while i < pieces.len()
        invariant
            pieces@.map_values(|f: String| f@) == space_pieces(s@),
            widths == piece_widths(s@),
            i <= pieces@.len(),
            lines <= 1 + i,
            w <= u64::MAX as int * 2 + 2,
            wrap_from(widths, width as nat, i as int, lines as nat, w as nat) == wrapped_lines(
                widths,
                width as nat,
            ),
        decreases pieces@.len() - i,
    {
        assert(pieces@[i as int]@ == space_pieces(s@)[i as int]);
        let x = str_width(pieces[i].as_str()) as u128;
        assert(x == widths[i as int]);
        if w + x > width as u128 {
            lines += 1;
            w = 0;
        }
        w = w + x + 1;
        i += 1;
    }
    lines
}

} // verus!
