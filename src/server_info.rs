use vstd::prelude::*;

use crate::net::NetAddr;
use crate::strings::str_eq;
use crate::text::{chars_of, color_trimmed, lower_of, string_of, to_lowercase, trim, trim_color, trimmed};

verus! {

/// The network protocol a server speaks.
#[derive(Copy, Clone, Debug, PartialEq, Eq, Structural)]
pub enum Protocol {
    /// The current protocol, number 49.
    Xash49,
    /// The legacy protocol, number 48.
    Xash48,
    /// The protocol of the GoldSrc engine.
    GoldSrc,
}

/// The value of decimal digits `s`.
pub open spec fn digits_value(s: Seq<char>) -> nat
    decreases s.len(),
{
    if s.len() == 0 {
        0
    } else {
        digits_value(s.drop_last()) * 10 + (s.last() as nat - '0' as nat) as nat
    }
}

pub open spec fn all_digits(s: Seq<char>) -> bool {
    forall|i: int| 0 <= i < s.len() ==> '0' <= #[trigger] s[i] <= '9'
}

/// The number that `s` writes in decimal, an optional `+` first, if it
/// fits in a `u32`.
pub open spec fn decimal_u32(s: Seq<char>) -> Option<u32> {
    let d = if s.len() > 0 && s[0] == '+' { s.subrange(1, s.len() as int) } else { s };
    if d.len() > 0 && all_digits(d) && digits_value(d) <= u32::MAX {
        Some(digits_value(d) as u32)
    } else {
        None
    }
}

proof fn lemma_digits_grow(s: Seq<char>)
    requires
        all_digits(s),
    ensures
        forall|j: int| 0 <= j <= s.len() ==> digits_value(s.subrange(0, j)) <= digits_value(s),
    decreases s.len(),
{
    if s.len() > 0 {
        lemma_digits_grow(s.drop_last());
        assert forall|j: int| 0 <= j <= s.len() implies digits_value(s.subrange(0, j)) <= digits_value(
            s,
        ) by {
            if j < s.len() {
                assert(s.drop_last().subrange(0, j) =~= s.subrange(0, j));
            } else {
                assert(s.subrange(0, j) =~= s);
            }
        }
    }
}

/// Reads a decimal number as `u32::from_str` does.
pub fn parse_u32(s: &str) -> (r: Option<u32>)
    ensures
        r == decimal_u32(s@),
{
    let cs = chars_of(s);
    let start: usize = if cs.len() > 0 && cs[0] == '+' { 1 } else { 0 };
    let ghost d = if s@.len() > 0 && s@[0] == '+' { s@.subrange(1, s@.len() as int) } else { s@ };
    if start >= cs.len() {
        return None;
    }
    let mut value: u32 = 0;
    let mut i: usize = start;
    while i < cs.len()
        invariant
            cs@ == s@,
            start <= i <= cs@.len(),
            d == s@.subrange(start as int, s@.len() as int),
            d == (if s@.len() > 0 && s@[0] == '+' { s@.subrange(1, s@.len() as int) } else { s@ }),
            all_digits(s@.subrange(start as int, i as int)),
            value == digits_value(s@.subrange(start as int, i as int)),
        decreases cs@.len() - i,
    {
        let c = cs[i];
        if !('0' <= c && c <= '9') {
            assert(d[i - start] == c);
            assert(!all_digits(d));
            return None;
        }
        let digit = (c as u32) - ('0' as u32);
        assert(s@.subrange(start as int, i + 1).drop_last() =~= s@.subrange(start as int, i as int));
        if value > 429496729 || (value == 429496729 && digit > 5) {
            proof {
                let p = s@.subrange(start as int, i + 1);
                assert(p.last() == c);
                assert(digits_value(p) == value * 10 + digit);
                assert(digits_value(p) > u32::MAX);
                if all_digits(d) {
                    lemma_digits_grow(d);
                    assert(d.subrange(0, i + 1 - start) =~= p);
                }
            }
            return None;
        }
        value = value * 10 + digit;
        i += 1;
    }
    assert(s@.subrange(start as int, s@.len() as int) =~= d);
    Some(value)
}

/// What a server said about itself.
pub struct ServerInfo {
    pub addr: NetAddr,
    pub host: String,
    /// The host name as sorting compares it: colors out, lower case.
    pub host_cmp: String,
    pub map: String,
    pub gamedir: String,
    pub numcl: u32,
    pub maxcl: u32,
    pub dm: bool,
    pub team: bool,
    pub coop: bool,
    pub password: bool,
    pub dedicated: bool,
    pub protocol: Protocol,
}

/// The fields of a server record as plain values.
pub struct InfoModel {
    pub host: Seq<char>,
    pub map: Seq<char>,
    pub gamedir: Seq<char>,
    pub numcl: u32,
    pub maxcl: u32,
    pub dm: bool,
    pub team: bool,
    pub coop: bool,
    pub password: bool,
    pub dedicated: bool,
    pub protocol: Protocol,
}

/// A record with nothing known.
pub open spec fn empty_info() -> InfoModel {
    InfoModel {
        host: Seq::empty(),
        map: Seq::empty(),
        gamedir: Seq::empty(),
        numcl: 0,
        maxcl: 0,
        dm: false,
        team: false,
        coop: false,
        password: false,
        dedicated: false,
        protocol: Protocol::Xash49,
    }
}

/// `m` after key `k` with value `v`; unknown keys change nothing.
pub open spec fn with_field(m: InfoModel, k: Seq<char>, v: Seq<char>) -> InfoModel {
    let one = v == "1"@;
    if k == "p"@ {
        InfoModel {
            protocol: if color_trimmed(v) == "48"@ { Protocol::Xash48 } else { Protocol::Xash49 },
            ..m
        }
    } else if k == "host"@ {
        InfoModel { host: trimmed(v), ..m }
    } else if k == "map"@ {
        InfoModel { map: color_trimmed(v), ..m }
    } else if k == "gamedir"@ {
        InfoModel { gamedir: color_trimmed(v), ..m }
    } else if k == "numcl"@ {
        InfoModel {
            numcl: match decimal_u32(color_trimmed(v)) {
                Some(n) => n,
                None => 0,
            },
            ..m
        }
    } else if k == "maxcl"@ {
        InfoModel {
            maxcl: match decimal_u32(color_trimmed(v)) {
                Some(n) => n,
                None => 0,
            },
            ..m
        }
    } else if k == "legacy"@ {
        InfoModel { protocol: if one { Protocol::Xash48 } else { m.protocol }, ..m }
    } else if k == "gs"@ {
        InfoModel { protocol: if one { Protocol::GoldSrc } else { m.protocol }, ..m }
    } else if k == "dm"@ {
        InfoModel { dm: one, ..m }
    } else if k == "team"@ {
        InfoModel { team: one, ..m }
    } else if k == "coop"@ {
        InfoModel { coop: one, ..m }
    } else if k == "password"@ {
        InfoModel { password: one, ..m }
    } else if k == "dedicated"@ {
        InfoModel { dedicated: one, ..m }
    } else {
        m
    }
}

/// `m` after the key/value pairs of `f` from index `i` on.
pub open spec fn with_fields(m: InfoModel, f: Seq<Seq<char>>, i: int) -> InfoModel
    decreases f.len() - i,
{
    if i < 0 || i + 1 >= f.len() {
        m
    } else {
        with_fields(with_field(m, f[i], f[i + 1]), f, i + 2)
    }
}

/// The pieces of `s` between backslashes.
pub open spec fn split_fields(s: Seq<char>) -> Seq<Seq<char>>
    decreases s.len(),
{
    if s.len() == 0 {
        seq![Seq::empty()]
    } else {
        let prev = split_fields(s.drop_last());
        if s.last() == '\\' {
            prev.push(Seq::empty())
        } else {
            prev.update(prev.len() - 1, prev.last().push(s.last()))
        }
    }
}

proof fn lemma_split_nonempty(s: Seq<char>)
    ensures
        split_fields(s).len() >= 1,
    decreases s.len(),
{
    if s.len() > 0 {
        lemma_split_nonempty(s.drop_last());
    }
}

/// The record that `\key\value\...` text `info` gives, if it is one: it must
/// start with a backslash and hold whole pairs.
pub open spec fn parsed_info(info: Seq<char>) -> Option<InfoModel> {
    if info.len() > 0 && info[0] == '\\' && split_fields(info.subrange(1, info.len() as int)).len()
        % 2 == 0 {
        Some(with_fields(empty_info(), split_fields(info.subrange(1, info.len() as int)), 0))
    } else {
        None
    }
}

/// Splits `s` at each backslash.
fn split_backslash(s: &[char]) -> (r: Vec<String>)
    ensures
        r@.map_values(|f: String| f@) == split_fields(s@),
{
    let mut fields: Vec<String> = Vec::new();
    let mut cur: Vec<char> = Vec::new();
    let mut i: usize = 0;
    while i < s.len()
        invariant
            i <= s@.len(),
            fields@.map_values(|f: String| f@).push(cur@) == split_fields(s@.subrange(0, i as int)),
        decreases s@.len() - i,
    {
        let c = s[i];
        let ghost prefix = s@.subrange(0, i + 1);
        assert(prefix.drop_last() =~= s@.subrange(0, i as int));
        proof {
            lemma_split_nonempty(s@.subrange(0, i as int));
        }
        if c == '\\' {
            let ghost before = fields@.map_values(|f: String| f@);
            let done = string_of(cur.as_slice());
            fields.push(done);
            cur = Vec::new();
            assert(fields@.map_values(|f: String| f@) =~= before.push(done@));
            assert(fields@.map_values(|f: String| f@).push(cur@) =~= split_fields(prefix));
        } else {
            let ghost old_cur = cur@;
            cur.push(c);
            assert(fields@.map_values(|f: String| f@).push(cur@) =~= split_fields(prefix));
        }
        i += 1;
    }
    assert(s@.subrange(0, s@.len() as int) =~= s@);
    let ghost before = fields@.map_values(|f: String| f@);
    let last = string_of(cur.as_slice());
    fields.push(last);
    assert(fields@.map_values(|f: String| f@) =~= before.push(last@));
    fields
}

impl ServerInfo {
    /// The fields of the record as plain values.
    pub open spec fn model(&self) -> InfoModel {
        InfoModel {
            host: self.host@,
            map: self.map@,
            gamedir: self.gamedir@,
            numcl: self.numcl,
            maxcl: self.maxcl,
            dm: self.dm,
            team: self.team,
            coop: self.coop,
            password: self.password,
            dedicated: self.dedicated,
            protocol: self.protocol,
        }
    }

    fn new(addr: NetAddr) -> (r: Self)
        ensures
            r.addr == addr,
            r.model() == empty_info(),
            r.host_cmp@.len() == 0,
    {
        ServerInfo {
            addr,
            host: String::new(),
            host_cmp: String::new(),
            map: String::new(),
            gamedir: String::new(),
            numcl: 0,
            maxcl: 0,
            dm: false,
            team: false,
            coop: false,
            password: false,
            dedicated: false,
            protocol: Protocol::Xash49,
        }
    }

    /// A record known only by its host name and protocol, as a saved
    /// server is before it answers.
    pub fn with_host_and_proto(addr: NetAddr, host: String, protocol: Protocol) -> (r: Self)
        ensures
            r.addr == addr,
            r.model() == (InfoModel { host: host@, protocol, ..empty_info() }),
            r.host_cmp@.len() == 0,
    {
        ServerInfo { host, protocol, ..Self::new(addr) }
    }

    fn set_field(&mut self, k: &str, v: &str)
        ensures
            final(self).model() == with_field(old(self).model(), k@, v@),
            final(self).addr == old(self).addr,
    {
        proof {
            reveal_strlit("1");
            reveal_strlit("48");
        }
        let one = str_eq(v, "1");
        if str_eq(k, "p") {
            let t = trim_color(v);
            self.protocol = if str_eq(t.as_str(), "48") { Protocol::Xash48 } else { Protocol::Xash49 };
        } else if str_eq(k, "host") {
            self.host = trim(v);
        } else if str_eq(k, "map") {
            self.map = trim_color(v);
        } else if str_eq(k, "gamedir") {
            self.gamedir = trim_color(v);
        } else if str_eq(k, "numcl") {
            let t = trim_color(v);
            self.numcl = match parse_u32(t.as_str()) {
                Some(n) => n,
                None => 0,
            };
        } else if str_eq(k, "maxcl") {
            let t = trim_color(v);
            self.maxcl = match parse_u32(t.as_str()) {
                Some(n) => n,
                None => 0,
            };
        } else if str_eq(k, "legacy") {
            if one {
                self.protocol = Protocol::Xash48;
            }
        } else if str_eq(k, "gs") {
            if one {
                self.protocol = Protocol::GoldSrc;
            }
        } else if str_eq(k, "dm") {
            self.dm = one;
        } else if str_eq(k, "team") {
            self.team = one;
        } else if str_eq(k, "coop") {
            self.coop = one;
        } else if str_eq(k, "password") {
            self.password = one;
        } else if str_eq(k, "dedicated") {
            self.dedicated = one;
        }
    }

    /// Reads a `\key\value\key\value...` record that server `addr` sent.
    /// Unknown keys are skipped; text without the leading backslash, or
    /// with a key and no value, is no record.
    pub fn parse(addr: NetAddr, info: &str) -> (r: Option<Self>)
        ensures
            r is Some <==> parsed_info(info@) is Some,
            r matches Some(s) ==> {
                &&& s.addr == addr
                &&& Some(s.model()) == parsed_info(info@)
                &&& s.host_cmp@ == lower_of(color_trimmed(s.host@))
            },
    {
        let cs = chars_of(info);
        if cs.len() == 0 || cs[0] != '\\' {
            return None;
        }
        let rest = vstd::slice::slice_subrange(cs.as_slice(), 1, cs.len());
        assert(rest@ == info@.subrange(1, info@.len() as int));
        let fields = split_backslash(rest);
        let ghost f = fields@.map_values(|x: String| x@);
        let mut ret = Self::new(addr);
        let mut i: usize = 0;
        while i < fields.len()
            invariant
                f == fields@.map_values(|x: String| x@),
                f == split_fields(info@.subrange(1, info@.len() as int)),
                i % 2 == 0,
                i <= fields@.len(),
                info@.len() >= 1,
                ret.addr == addr,
                with_fields(ret.model(), f, i as int) == with_fields(empty_info(), f, 0),
            decreases fields@.len() - i,
        {
            if i + 1 >= fields.len() {
                return None;
            }
            assert(f[i as int] == fields@[i as int]@);
            assert(f[i + 1] == fields@[i + 1]@);
            ret.set_field(fields[i].as_str(), fields[i + 1].as_str());
            i += 2;
        }
        let t = trim_color(ret.host.as_str());
        ret.host_cmp = to_lowercase(t.as_str());
        Some(ret)
    }
}

} // verus!
