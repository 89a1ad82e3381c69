use vstd::prelude::*;

use crate::text::{
    char_from_u32, chars_of, decode_utf16_lossy, decode_utf8_lossy, is_scalar, slice_from, string_of,
    utf16_lossy, utf8_lossy,
};

verus! {

/// `s` with its escapes resolved: `\\` is a backslash, `\n` a line break;
/// a backslash before anything else stays, and a final lone one is dropped.
pub open spec fn unescape(s: Seq<char>) -> Seq<char>
    decreases s.len(),
{
    if s.len() == 0 {
        Seq::empty()
    } else if s[0] == '\\' {
        if s.len() == 1 {
            Seq::empty()
        } else {
            let c = s[1];
            (if c == '\\' {
                seq!['\\']
            } else if c == 'n' {
                seq!['\n']
            } else {
                seq!['\\', c]
            }) + unescape(s.subrange(2, s.len() as int))
        }
    } else {
        seq![s[0]] + unescape(s.subrange(1, s.len() as int))
    }
}

/// Resolves the escapes of a localized string.
pub fn escape_string(s: &str) -> (r: String)
    ensures
        r@ == unescape(s@),
{
    let cs = chars_of(s);
    let mut out: Vec<char> = Vec::new();
    let mut escape = false;
    let mut i: usize = 0;
    proof {
        assert(s@.subrange(0, s@.len() as int) =~= s@);
        assert(out@ + unescape(s@) =~= unescape(s@));
    }
    while i < cs.len()
        invariant
            cs@ == s@,
            i <= cs@.len(),
            !escape ==> unescape(s@) == out@ + unescape(s@.subrange(i as int, s@.len() as int)),
            escape ==> i >= 1 && s@[i - 1] == '\\' && unescape(s@) == out@ + unescape(
                s@.subrange(i - 1, s@.len() as int),
            ),
        decreases cs@.len() - i,
    {
        let c = cs[i];
        proof {
            let rest = s@.subrange(i as int, s@.len() as int);
            if escape {
                let prev = s@.subrange(i - 1, s@.len() as int);
                assert(prev.subrange(2, prev.len() as int) =~= s@.subrange(i + 1, s@.len() as int));
            } else {
                assert(rest.subrange(1, rest.len() as int) =~= s@.subrange(i + 1, s@.len() as int));
            }
        }
        if escape {
            escape = false;
            if c == '\\' {
                out.push('\\');
            } else if c == 'n' {
                out.push('\n');
            } else {
                out.push('\\');
                out.push(c);
            }
        } else if c == '\\' {
            escape = true;
        } else {
            out.push(c);
        }
        proof {
            assert(out@ + unescape(s@.subrange(i + 1, s@.len() as int)) =~= out@ + unescape(
                s@.subrange(i + 1, s@.len() as int),
            ));
        }
        i += 1;
    }
    proof {
        if escape {
            assert(s@.subrange(i - 1, s@.len() as int) =~= seq!['\\']);
        }
        assert(s@.subrange(i as int, s@.len() as int) =~= Seq::<char>::empty());
        assert(out@ =~= unescape(s@));
    }
    string_of(out.as_slice())
}

} // verus!

verus! {

/// Word `i` of `data` read as four bytes, big-endian when `be`.
pub open spec fn word32(data: Seq<u8>, i: int, be: bool) -> u32 {
    let (b0, b1, b2, b3) = (
        data[4 * i] as u32,
        data[4 * i + 1] as u32,
        data[4 * i + 2] as u32,
        data[4 * i + 3] as u32,
    );
    if be {
        (b0 * 16777216 + b1 * 65536 + b2 * 256 + b3) as u32
    } else {
        (b3 * 16777216 + b2 * 65536 + b1 * 256 + b0) as u32
    }
}

/// Unit `i` of `data` read as two bytes, big-endian when `be`.
pub open spec fn word16(data: Seq<u8>, i: int, be: bool) -> u16 {
    if be {
        (data[2 * i] as u16 * 256 + data[2 * i + 1] as u16) as u16
    } else {
        (data[2 * i + 1] as u16 * 256 + data[2 * i] as u16) as u16
    }
}

/// The UTF-16 code units of `data`; an odd last byte is left out.
pub open spec fn units16(data: Seq<u8>, be: bool) -> Seq<u16> {
    Seq::new(data.len() / 2, |i: int| word16(data, i, be))
}

/// Whether `text` is UTF-32 `data` decoded: a character per four bytes,
/// U+FFFD for a word that is not a scalar value; a last partial word is
/// left out.
pub open spec fn utf32_decodes(data: Seq<u8>, be: bool, text: Seq<char>) -> bool {
    &&& text.len() == data.len() / 4
    &&& forall|i: int|
        0 <= i < text.len() ==> if is_scalar(word32(data, i, be)) {
            text[i] as u32 == word32(data, i, be)
        } else {
            text[i] == '\u{FFFD}'
        }
}

/// Decodes UTF-32: a character per four bytes, U+FFFD for a word that is
/// not a scalar value; a last partial word is left out.
pub fn from_utf32_lossy(data: &[u8], be: bool) -> (r: String)
    ensures
        utf32_decodes(data@, be, r@),
{
    let n = data.len() / 4;
    let mut out: Vec<char> = Vec::new();
    let mut i: usize = 0;
    assert(data@.len() == data.len());
    while i < n
        invariant
            data@.len() <= usize::MAX,
            n == data@.len() / 4,
            i <= n,
            out@.len() == i,
            forall|j: int|
                0 <= j < i ==> if is_scalar(word32(data@, j, be)) {
                    out@[j] as u32 == word32(data@, j, be)
                } else {
                    out@[j] == '\u{FFFD}'
                },
        decreases n - i,
    {
        let (b0, b1, b2, b3) = (
            data[4 * i] as u32,
            data[4 * i + 1] as u32,
            data[4 * i + 2] as u32,
            data[4 * i + 3] as u32,
        );
        let v: u32 = if be {
            b0 * 16777216 + b1 * 65536 + b2 * 256 + b3
        } else {
            b3 * 16777216 + b2 * 65536 + b1 * 256 + b0
        };
        assert(v == word32(data@, i as int, be));
        let c = match char_from_u32(v) {
            Some(c) => c,
            None => '\u{FFFD}',
        };
        out.push(c);
        i += 1;
    }
    string_of(out.as_slice())
}

/// Decodes UTF-16, U+FFFD for each unpaired surrogate; an odd last byte is
/// left out.
pub fn from_utf16_lossy(data: &[u8], be: bool) -> (r: String)
    ensures
        r@ == utf16_lossy(units16(data@, be)),
{
    let n = data.len() / 2;
    let mut units: Vec<u16> = Vec::new();
    let mut i: usize = 0;
    assert(data@.len() == data.len());
    while i < n
        invariant
            data@.len() <= usize::MAX,
            n == data@.len() / 2,
            i <= n,
            units@ == units16(data@, be).subrange(0, i as int),
        decreases n - i,
    {
        let u: u16 = if be {
            data[2 * i] as u16 * 256 + data[2 * i + 1] as u16
        } else {
            data[2 * i + 1] as u16 * 256 + data[2 * i] as u16
        };
        units.push(u);
        i += 1;
        assert(units@ =~= units16(data@, be).subrange(0, i as int));
    }
    assert(units@ =~= units16(data@, be));
    decode_utf16_lossy(units.as_slice())
}

/// Whether `data` is a UTF-32 BOM in the given byte order.
pub open spec fn has_utf32_bom(data: Seq<u8>, be: bool) -> bool {
    data.len() >= 4 && if be {
        data[0] == 0x00 && data[1] == 0x00 && data[2] == 0xfe && data[3] == 0xff
    } else {
        data[0] == 0xfe && data[1] == 0xff && data[2] == 0x00 && data[3] == 0x00
    }
}

/// Whether `data` starts with a UTF-16 BOM in the given byte order.
pub open spec fn has_utf16_bom(data: Seq<u8>, be: bool) -> bool {
    data.len() >= 2 && if be {
        data[0] == 0xfe && data[1] == 0xff
    } else {
        data[0] == 0xff && data[1] == 0xfe
    }
}

/// Whether `data` starts with a UTF-8 BOM.
pub open spec fn has_utf8_bom(data: Seq<u8>) -> bool {
    data.len() >= 3 && data[0] == 0xef && data[1] == 0xbb && data[2] == 0xbf
}

/// Decodes the text of a resource file; its byte-order mark says how it is
/// encoded, UTF-8 without one.
pub fn bytes_to_string(data: &[u8]) -> (r: String)
    ensures
        has_utf32_bom(data@, true) ==> utf32_decodes(data@.subrange(4, data@.len() as int), true, r@),
        !has_utf32_bom(data@, true) && has_utf32_bom(data@, false) ==> utf32_decodes(
            data@.subrange(4, data@.len() as int),
            false,
            r@,
        ),
        !has_utf32_bom(data@, true) && !has_utf32_bom(data@, false) && has_utf16_bom(data@, true)
            ==> r@ == utf16_lossy(units16(data@.subrange(2, data@.len() as int), true)),
        !has_utf32_bom(data@, true) && !has_utf32_bom(data@, false) && !has_utf16_bom(data@, true)
            && has_utf16_bom(data@, false) ==> r@ == utf16_lossy(
            units16(data@.subrange(2, data@.len() as int), false),
        ),
        !has_utf32_bom(data@, true) && !has_utf32_bom(data@, false) && !has_utf16_bom(data@, true)
            && !has_utf16_bom(data@, false) && has_utf8_bom(data@) ==> r@ == utf8_lossy(
            data@.subrange(3, data@.len() as int),
        ),
        !has_utf32_bom(data@, true) && !has_utf32_bom(data@, false) && !has_utf16_bom(data@, true)
            && !has_utf16_bom(data@, false) && !has_utf8_bom(data@) ==> r@ == utf8_lossy(data@),
{
    let n = data.len();
    if n >= 4 && data[0] == 0x00 && data[1] == 0x00 && data[2] == 0xfe && data[3] == 0xff {
        from_utf32_lossy(slice_from(data, 4), true)
    } else if n >= 4 && data[0] == 0xfe && data[1] == 0xff && data[2] == 0x00 && data[3] == 0x00 {
        from_utf32_lossy(slice_from(data, 4), false)
    } else if n >= 2 && data[0] == 0xfe && data[1] == 0xff {
        from_utf16_lossy(slice_from(data, 2), true)
    } else if n >= 2 && data[0] == 0xff && data[1] == 0xfe {
        from_utf16_lossy(slice_from(data, 2), false)
    } else if n >= 3 && data[0] == 0xef && data[1] == 0xbb && data[2] == 0xbf {
        decode_utf8_lossy(slice_from(data, 3))
    } else {
        decode_utf8_lossy(data)
    }
}

} // verus!

verus! {

/// Whether the names of `entries` are distinct.
pub open spec fn unique_names(entries: Seq<(Seq<char>, Seq<char>)>) -> bool {
    forall|i: int, j: int|
        0 <= i < entries.len() && 0 <= j < entries.len() && i != j ==> entries[i].0 != entries[j].0
}

/// The localized text that `entries` give `name`.
pub open spec fn lookup(entries: Seq<(Seq<char>, Seq<char>)>, name: Seq<char>) -> Option<Seq<char>> {
    if exists|i: int| 0 <= i < entries.len() && entries[i].0 == name {
        Some(entries[choose|i: int| 0 <= i < entries.len() && entries[i].0 == name].1)
    } else {
        None
    }
}

proof fn lemma_lookup_at(entries: Seq<(Seq<char>, Seq<char>)>, i: int)
    requires
        unique_names(entries),
        0 <= i < entries.len(),
    ensures
        lookup(entries, entries[i].0) == Some(entries[i].1),
{
    let name = entries[i].0;
    let j = choose|j: int| 0 <= j < entries.len() && entries[j].0 == name;
    assert(0 <= j < entries.len() && entries[j].0 == name);
}

/// The localized strings of the interface, by name.
pub struct Strings {
    entries: Vec<(String, String)>,
}

/// What is wrong with a resource file.
#[derive(Clone, Debug, PartialEq, Eq)]
pub enum ResourceError {
    /// The file ended early.
    UnexpectedEnd,
    /// A token other than the one the format asks for.
    Expected(String),
}

impl Strings {
    pub closed spec fn spec_entries(&self) -> Seq<(Seq<char>, Seq<char>)> {
        self.entries@.map_values(|e: (String, String)| (e.0@, e.1@))
    }

    pub open spec fn wf(&self) -> bool {
        unique_names(self.spec_entries())
    }

    /// The localized text of `name`.
    pub open spec fn spec_lookup(&self, name: Seq<char>) -> Option<Seq<char>> {
        lookup(self.spec_entries(), name)
    }

    /// No localized text yet.
    pub fn new() -> (r: Self)
        ensures
            r.wf(),
            forall|k: Seq<char>| r.spec_lookup(k) is None,
    {
        let r = Strings { entries: Vec::new() };
        assert(r.spec_entries().len() == 0);
        r
    }

    /// Sets the localized text of `name`.
    pub fn insert(&mut self, name: String, value: String)
        requires
            old(self).wf(),
        ensures
            final(self).wf(),
            final(self).spec_lookup(name@) == Some(value@),
            forall|k: Seq<char>| k != name@ ==> final(self).spec_lookup(k) == old(self).spec_lookup(k),
    {
        let ghost before = self.spec_entries();
        let mut i: usize = 0;
        while i < self.entries.len()
            invariant
                i <= self.entries@.len(),
                self.spec_entries() == before,
                before == old(self).spec_entries(),
                unique_names(before),
                forall|j: int| 0 <= j < i ==> before[j].0 != name@,
            decreases self.entries@.len() - i,
        {
            assert(before[i as int] == (self.entries@[i as int].0@, self.entries@[i as int].1@));
            if self.entries[i].0 == name {
                self.entries.set(i, (name, value));
                proof {
                    let after = self.spec_entries();
                    assert(before[i as int].0 == name@);
                    assert(after =~= before.update(i as int, (name@, value@)));
                    assert(unique_names(after));
                    lemma_lookup_at(after, i as int);
                    assert forall|k: Seq<char>| k != name@ implies lookup(after, k) == lookup(before, k) by {
                        if exists|j: int| 0 <= j < before.len() && before[j].0 == k {
                            let j = choose|j: int| 0 <= j < before.len() && before[j].0 == k;
                            assert(j != i);
                            assert(after[j] == before[j]);
                            lemma_lookup_at(before, j);
                            lemma_lookup_at(after, j);
                        } else {
                            assert forall|j: int| 0 <= j < after.len() implies after[j].0 != k by {
                                if j != i {
                                    assert(after[j] == before[j]);
                                }
                            }
                        }
                    }
                    assert forall|k: Seq<char>| k != name@ implies self.spec_lookup(k) == old(self).spec_lookup(k) by {
                        assert(lookup(after, k) == lookup(before, k));
                    }
                }
                return;
            }
            i += 1;
        }
        self.entries.push((name, value));
        proof {
            let after = self.spec_entries();
            assert(after =~= before.push((name@, value@)));
            assert(unique_names(after));
            lemma_lookup_at(after, before.len() as int);
            assert forall|k: Seq<char>| k != name@ implies lookup(after, k) == lookup(before, k) by {
                if exists|j: int| 0 <= j < before.len() && before[j].0 == k {
                    let j = choose|j: int| 0 <= j < before.len() && before[j].0 == k;
                    lemma_lookup_at(before, j);
                    lemma_lookup_at(after, j);
                } else {
                    assert forall|j: int| 0 <= j < after.len() implies after[j].0 != k by {
                        if j < before.len() {
                            assert(after[j] == before[j]);
                        }
                    }
                }
            }
        }
    }

    /// The localized text of `s`, a leading `#` ignored.
    pub fn try_get<'a>(&'a self, s: &'a str) -> (r: Option<&'a str>)
        requires
            self.wf(),
        ensures
            r matches Some(t) ==> Some(t@) == self.spec_lookup(name_of(s@)),
            r is None ==> self.spec_lookup(name_of(s@)) is None,
    {
        let n = s.unicode_len();
        let key = if n > 0 && s.get_char(0) == '#' {
            s.substring_char(1, n)
        } else {
            s
        };
        let key = key.to_owned();
        assert(key@ == name_of(s@));
        let mut i: usize = 0;
        while i < self.entries.len()
            invariant
                i <= self.entries@.len(),
                self.wf(),
                key@ == name_of(s@),
                forall|j: int| 0 <= j < i ==> self.spec_entries()[j].0 != key@,
            decreases self.entries@.len() - i,
        {
            assert(self.spec_entries()[i as int] == (
                self.entries@[i as int].0@,
                self.entries@[i as int].1@,
            ));
            if self.entries[i].0 == key {
                proof {
                    lemma_lookup_at(self.spec_entries(), i as int);
                }
                return Some(self.entries[i].1.as_str());
            }
            i += 1;
        }
        None
    }

    /// The localized text of `s`, or `s` itself when there is none.
    pub fn get<'a>(&'a self, s: &'a str) -> (r: &'a str)
        requires
            self.wf(),
        ensures
            r@ == match self.spec_lookup(name_of(s@)) {
                Some(t) => t,
                None => s@,
            },
    {
        match self.try_get(s) {
            Some(t) => t,
            None => s,
        }
    }
}

/// The name that `s` asks to localize: `s` without a leading `#`.
pub open spec fn name_of(s: Seq<char>) -> Seq<char> {
    if s.len() > 0 && s[0] == '#' {
        s.subrange(1, s.len() as int)
    } else {
        s
    }
}

} // verus!

verus! {

/// Whether two texts are equal.
pub fn str_eq(a: &str, b: &str) -> (r: bool)
    ensures
        r == (a@ == b@),
{
    let x = chars_of(a);
    let y = chars_of(b);
    if x.len() != y.len() {
        return false;
    }
    let mut i: usize = 0;
    while i < x.len()
        invariant
            x@ == a@,
            y@ == b@,
            x@.len() == y@.len(),
            i <= x@.len(),
            forall|j: int| 0 <= j < i ==> x@[j] == y@[j],
        decreases x@.len() - i,
    {
        if x[i] != y[i] {
            return false;
        }
        i += 1;
    }
    assert(x@ =~= y@);
    true
}

/// Whether `t` opens a resource file: `lang { Language <name> Tokens {`.
pub open spec fn resource_header(t: Seq<Seq<char>>) -> bool {
    &&& t.len() >= 6
    &&& t[0] == "lang"@
    &&& t[1] == "{"@
    &&& t[2] == "Language"@
    &&& t[4] == "Tokens"@
    &&& t[5] == "{"@
}

/// Where the name/value pairs from token `i` on end: the index of the
/// closing brace, if one stands where a name would.
pub open spec fn body_end(t: Seq<Seq<char>>, i: int) -> Option<int>
    decreases t.len() - i,
{
    if i < 0 || i >= t.len() {
        None
    } else if t[i] == "}"@ {
        Some(i)
    } else if i + 1 >= t.len() {
        None
    } else {
        body_end(t, i + 2)
    }
}

/// Whether `t` is a whole resource file.
pub open spec fn resource_ok(t: Seq<Seq<char>>) -> bool {
    &&& resource_header(t)
    &&& body_end(t, 6) matches Some(e)
    &&& e + 1 < t.len()
    &&& t[e + 1] == "}"@
}

/// The localized text of `k` once the pairs from token `i` on are read over
/// `prev`; a pair whose value is empty once unescaped is skipped.
pub open spec fn resource_lookup(prev: Option<Seq<char>>, t: Seq<Seq<char>>, i: int, k: Seq<char>) -> Option<
    Seq<char>,
>
    decreases t.len() - i,
{
    if i < 0 || i + 1 >= t.len() || t[i] == "}"@ {
        prev
    } else {
        let v = unescape(t[i + 1]);
        resource_lookup(if t[i] == k && v.len() > 0 { Some(v) } else { prev }, t, i + 2, k)
    }
}

impl Strings {
    /// Reads the tokens of a resource file,
    /// `lang { Language <name> Tokens { <name> <value> ... } }`, and takes
    /// each localized text in it; pairs read before an error are kept.
    pub fn parse_resource_file(&mut self, tokens: &Vec<String>) -> (r: Result<(), ResourceError>)
        requires
            old(self).wf(),
        ensures
            final(self).wf(),
            r is Ok <==> resource_ok(tokens@.map_values(|s: String| s@)),
            !resource_header(tokens@.map_values(|s: String| s@)) ==> final(self).spec_entries()
                == old(self).spec_entries(),
            resource_header(tokens@.map_values(|s: String| s@)) ==> forall|k: Seq<char>|
                final(self).spec_lookup(k) == resource_lookup(
                    old(self).spec_lookup(k),
                    tokens@.map_values(|s: String| s@),
                    6,
                    k,
                ),
    {
        let ghost t = tokens@.map_values(|s: String| s@);
        proof {
            reveal_strlit("lang");
            reveal_strlit("{");
            reveal_strlit("Language");
            reveal_strlit("Tokens");
            reveal_strlit("}");
        }
        let n = tokens.len();
        if n < 6 {
            return Err(ResourceError::UnexpectedEnd);
        }
        assert(forall|j: int| 0 <= j < n ==> t[j] == tokens@[j]@);
        if !str_eq(tokens[0].as_str(), "lang") {
            return Err(ResourceError::Expected("lang".to_owned()));
        }
        if !str_eq(tokens[1].as_str(), "{") {
            return Err(ResourceError::Expected("{".to_owned()));
        }
        if !str_eq(tokens[2].as_str(), "Language") {
            return Err(ResourceError::Expected("Language".to_owned()));
        }
        if !str_eq(tokens[4].as_str(), "Tokens") {
            return Err(ResourceError::Expected("Tokens".to_owned()));
        }
        if !str_eq(tokens[5].as_str(), "{") {
            return Err(ResourceError::Expected("{".to_owned()));
        }
        let mut i: usize = 6;
        while i < n
            invariant
                n == tokens@.len(),
                t == tokens@.map_values(|s: String| s@),
                resource_header(t),
                6 <= i,
                i % 2 == 0,
                body_end(t, i as int) == body_end(t, 6),
                self.wf(),
                forall|k: Seq<char>|
                    resource_lookup(self.spec_lookup(k), t, i as int, k) == resource_lookup(
                        old(self).spec_lookup(k),
                        t,
                        6,
                        k,
                    ),
            decreases n - i,
        {
            assert(t[i as int] == tokens@[i as int]@);
            if str_eq(tokens[i].as_str(), "}") {
                if i + 1 >= n {
                    return Err(ResourceError::UnexpectedEnd);
                }
                assert(t[i + 1] == tokens@[i + 1]@);
                if !str_eq(tokens[i + 1].as_str(), "}") {
                    return Err(ResourceError::Expected("}".to_owned()));
                }
                return Ok(());
            }
            if i + 1 >= n {
                return Err(ResourceError::UnexpectedEnd);
            }
            assert(t[i + 1] == tokens@[i + 1]@);
            let value = escape_string(tokens[i + 1].as_str());
            if value.as_str().unicode_len() > 0 {
                let ghost before = *self;
                self.insert(tokens[i].clone(), value);
                assert(forall|k: Seq<char>|
                    resource_lookup(self.spec_lookup(k), t, i + 2, k) == resource_lookup(
                        (if t[i as int] == k && unescape(t[i + 1]).len() > 0 {
                            Some(unescape(t[i + 1]))
                        } else {
                            before.spec_lookup(k)
                        }),
                        t,
                        i + 2,
                        k,
                    ));
            }
            i += 2;
        }
        Err(ResourceError::UnexpectedEnd)
    }
}

} // verus!
