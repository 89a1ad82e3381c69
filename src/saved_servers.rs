use vstd::prelude::*;

use crate::net::NetAddr;
use crate::server_info::Protocol;
use crate::strings::str_eq;
use crate::text::{chars_of, string_of};

verus! {

/// The word that stands for `p` in the favourites file.
pub open spec fn protocol_token(p: Protocol) -> Seq<char> {
    match p {
        Protocol::Xash49 => "49"@,
        Protocol::Xash48 => "48"@,
        Protocol::GoldSrc => "gs"@,
    }
}

/// The protocol that word `t` of the favourites file names.
pub open spec fn protocol_of_token(t: Seq<char>) -> Option<Protocol> {
    if t == "49"@ {
        Some(Protocol::Xash49)
    } else if t == "48"@ || t == "legacy"@ {
        Some(Protocol::Xash48)
    } else if t == "gs"@ || t == "goldsrc"@ {
        Some(Protocol::GoldSrc)
    } else {
        None
    }
}

/// Writes `p` as the favourites file does.
pub fn protocol_to_string(p: Protocol) -> (r: String)
    ensures
        r@ == protocol_token(p),
{
    match p {
        Protocol::Xash49 => "49".to_owned(),
        Protocol::Xash48 => "48".to_owned(),
        Protocol::GoldSrc => "gs".to_owned(),
    }
}

/// Reads a protocol word of the favourites file.
pub fn parse_protocol(t: &str) -> (r: Option<Protocol>)
    ensures
        r == protocol_of_token(t@),
{
    if str_eq(t, "49") {
        Some(Protocol::Xash49)
    } else if str_eq(t, "48") || str_eq(t, "legacy") {
        Some(Protocol::Xash48)
    } else if str_eq(t, "gs") || str_eq(t, "goldsrc") {
        Some(Protocol::GoldSrc)
    } else {
        None
    }
}

/// Whether `c` separates the words of the favourites file.
pub open spec fn is_sep(c: char) -> bool {
    c == ' ' || c == '\t' || c == '\n' || c == '\r'
}

/// One step of reading words: the words so far and the one being read.
pub open spec fn scan_step(st: (Seq<Seq<char>>, Seq<char>), c: char) -> (Seq<Seq<char>>, Seq<char>) {
    let (words, cur) = st;
    if is_sep(c) {
        if cur.len() > 0 {
            (words.push(cur), Seq::empty())
        } else {
            (words, Seq::empty())
        }
    } else {
        (words, cur.push(c))
    }
}

/// The words read from `s` and the one still open at its end.
pub open spec fn scan(s: Seq<char>) -> (Seq<Seq<char>>, Seq<char>)
    decreases s.len(),
{
    if s.len() == 0 {
        (Seq::empty(), Seq::empty())
    } else {
        scan_step(scan(s.drop_last()), s.last())
    }
}

/// The words of `s`: its longest runs without separators.
pub open spec fn words_of(s: Seq<char>) -> Seq<Seq<char>> {
    let (words, cur) = scan(s);
    if cur.len() > 0 {
        words.push(cur)
    } else {
        words
    }
}

/// The words of `s` two by two; an odd last word is left out.
pub open spec fn word_pairs(w: Seq<Seq<char>>) -> Seq<(Seq<char>, Seq<char>)> {
    Seq::new(w.len() / 2, |i: int| (w[2 * i], w[2 * i + 1]))
}

/// Splits the favourites file into `address protocol` word pairs.
pub fn parse_saved(text: &str) -> (r: Vec<(String, String)>)
    ensures
        r@.map_values(|p: (String, String)| (p.0@, p.1@)) == word_pairs(words_of(text@)),
{
    let cs = chars_of(text);
    let mut words: Vec<String> = Vec::new();
    let mut cur: Vec<char> = Vec::new();
    let mut i: usize = 0;
    while i < cs.len()
        invariant
            cs@ == text@,
            i <= cs@.len(),
            (words@.map_values(|w: String| w@), cur@) == scan(text@.subrange(0, i as int)),
        decreases cs@.len() - i,
    {
        let c = cs[i];
        assert(text@.subrange(0, i + 1).drop_last() =~= text@.subrange(0, i as int));
        let ghost before = words@.map_values(|w: String| w@);
        if c == ' ' || c == '\t' || c == '\n' || c == '\r' {
            if cur.len() > 0 {
                let w = string_of(cur.as_slice());
                words.push(w);
                cur = Vec::new();
                assert(words@.map_values(|w: String| w@) =~= before.push(w@));
            }
        } else {
            cur.push(c);
        }
        i += 1;
    }
    assert(text@.subrange(0, text@.len() as int) =~= text@);
    if cur.len() > 0 {
        let ghost before = words@.map_values(|w: String| w@);
        let w = string_of(cur.as_slice());
        words.push(w);
        assert(words@.map_values(|w: String| w@) =~= before.push(w@));
    }
    let ghost ws = words@.map_values(|w: String| w@);
    let mut pairs: Vec<(String, String)> = Vec::new();
    let mut k: usize = 0;
    while k + 1 < words.len()
        invariant
            ws == words@.map_values(|w: String| w@),
            k % 2 == 0,
            k <= words@.len(),
            pairs@.map_values(|p: (String, String)| (p.0@, p.1@)) == word_pairs(ws).subrange(
                0,
                (k / 2) as int,
            ),
        decreases words@.len() - k,
    {
        let ghost before = pairs@.map_values(|p: (String, String)| (p.0@, p.1@));
        let a = words[k].clone();
        let b = words[k + 1].clone();
        assert(2 * (k as int / 2) == k);
        assert(ws[k as int] == a@ && ws[k + 1] == b@);
        assert(word_pairs(ws)[k as int / 2] == (ws[k as int], ws[k + 1]));
        assert(k as int / 2 + 1 <= ws.len() / 2);
        pairs.push((a, b));
        assert(pairs@.map_values(|p: (String, String)| (p.0@, p.1@)) =~= before.push((ws[k as int], ws[k + 1])));
        assert(pairs@.map_values(|p: (String, String)| (p.0@, p.1@)) =~= word_pairs(ws).subrange(
            0,
            (k / 2 + 1) as int,
        ));
        k += 2;
    }
    assert(word_pairs(ws).subrange(0, (k / 2) as int) =~= word_pairs(ws));
    pairs
}

/// The line that saves server `a` of protocol `p`.
pub open spec fn saved_line(a: Seq<char>, p: Protocol) -> Seq<char> {
    a + seq![' '] + protocol_token(p) + seq!['\n']
}

/// The favourites file for `entries`, one line each.
pub open spec fn saved_text(entries: Seq<(Seq<char>, Protocol)>) -> Seq<char>
    decreases entries.len(),
{
    if entries.len() == 0 {
        Seq::empty()
    } else {
        saved_text(entries.drop_last()) + saved_line(entries.last().0, entries.last().1)
    }
}

/// Writes the favourites file for servers whose addresses read `entries`.
pub fn format_saved(entries: &Vec<(String, Protocol)>) -> (r: String)
    ensures
        r@ == saved_text(entries@.map_values(|e: (String, Protocol)| (e.0@, e.1))),
{
    let ghost es = entries@.map_values(|e: (String, Protocol)| (e.0@, e.1));
    let mut out: Vec<char> = Vec::new();
    let mut i: usize = 0;
    while i < entries.len()
        invariant
            es == entries@.map_values(|e: (String, Protocol)| (e.0@, e.1)),
            i <= entries@.len(),
            out@ == saved_text(es.subrange(0, i as int)),
        decreases entries@.len() - i,
    {
        let addr = chars_of(entries[i].0.as_str());
        let token = protocol_to_string(entries[i].1);
        let token = chars_of(token.as_str());
        let ghost start = out@;
        let mut j: usize = 0;
        while j < addr.len()
            invariant
                j <= addr@.len(),
                out@ == start + addr@.subrange(0, j as int),
            decreases addr@.len() - j,
        {
            out.push(addr[j]);
            j += 1;
            assert(out@ =~= start + addr@.subrange(0, j as int));
        }
        out.push(' ');
        let ghost mid = out@;
        let mut j: usize = 0;
        while j < token.len()
            invariant
                j <= token@.len(),
                out@ == mid + token@.subrange(0, j as int),
            decreases token@.len() - j,
        {
            out.push(token[j]);
            j += 1;
            assert(out@ =~= mid + token@.subrange(0, j as int));
        }
        out.push('\n');
        proof {
            assert(es.subrange(0, i + 1).drop_last() =~= es.subrange(0, i as int));
            assert(addr@.subrange(0, addr@.len() as int) =~= addr@);
            assert(token@.subrange(0, token@.len() as int) =~= token@);
            assert(out@ =~= saved_text(es.subrange(0, i as int)) + saved_line(es[i as int].0, es[i as int].1));
        }
        i += 1;
    }
    assert(es.subrange(0, es.len() as int) =~= es);
    string_of(out.as_slice())
}

} // verus!

verus! {

/// The words that the favourites file for `entries` holds, in order.
pub open spec fn saved_words(entries: Seq<(Seq<char>, Protocol)>) -> Seq<Seq<char>> {
    Seq::new(
        2 * entries.len(),
        |i: int|
            if i % 2 == 0 {
                entries[i / 2].0
            } else {
                protocol_token(entries[i / 2].1)
            },
    )
}

/// Whether `w` can stand as one word of the favourites file.
pub open spec fn is_word(w: Seq<char>) -> bool {
    w.len() > 0 && forall|i: int| 0 <= i < w.len() ==> !is_sep(#[trigger] w[i])
}

proof fn lemma_scan_push(s: Seq<char>, c: char)
    ensures
        scan(s.push(c)) == scan_step(scan(s), c),
{
    assert(s.push(c).drop_last() =~= s);
}

proof fn lemma_scan_word(s: Seq<char>, w: Seq<char>)
    requires
        scan(s).1.len() == 0,
        is_word(w),
    ensures
        scan(s + w) == (scan(s).0, w),
    decreases w.len(),
{
    let c = w.last();
    assert(!is_sep(w[w.len() - 1]));
    if w.len() == 1 {
        assert(s + w =~= s.push(c));
        lemma_scan_push(s, c);
        assert(seq![c] =~= w);
        assert(Seq::<char>::empty().push(c) =~= w);
    } else {
        let v = w.drop_last();
        assert forall|i: int| 0 <= i < v.len() implies !is_sep(#[trigger] v[i]) by {
            assert(v[i] == w[i]);
        }
        lemma_scan_word(s, v);
        assert(s + w =~= (s + v).push(c));
        lemma_scan_push(s + v, c);
        assert(v.push(c) =~= w);
    }
}

proof fn lemma_tokens_are_words(p: Protocol)
    ensures
        is_word(protocol_token(p)),
        protocol_of_token(protocol_token(p)) == Some(p),
{
    reveal_strlit("49");
    reveal_strlit("48");
    reveal_strlit("gs");
    reveal_strlit("legacy");
    reveal_strlit("goldsrc");
    match p {
        Protocol::Xash49 => {},
        Protocol::Xash48 => {
            assert("48"@[1] != "49"@[1]);
        },
        Protocol::GoldSrc => {
            assert("gs"@[0] != "49"@[0]);
            assert("gs"@[0] != "48"@[0]);
            assert("gs"@.len() != "legacy"@.len());
        },
    }
}

proof fn lemma_saved_words_push(entries: Seq<(Seq<char>, Protocol)>)
    requires
        entries.len() > 0,
    ensures
        saved_words(entries) =~= saved_words(entries.drop_last()).push(entries.last().0).push(
            protocol_token(entries.last().1),
        ),
{
    let prev = entries.drop_last();
    let w = saved_words(prev);
    assert forall|i: int| 0 <= i < 2 * prev.len() implies saved_words(entries)[i] == w[i] by {
        assert(entries[i / 2] == prev[i / 2]);
    }
}

#[verifier::rlimit(50)]
proof fn lemma_scan_saved(entries: Seq<(Seq<char>, Protocol)>)
    requires
        forall|i: int| 0 <= i < entries.len() ==> is_word(#[trigger] entries[i].0),
    ensures
        scan(saved_text(entries)) == (saved_words(entries), Seq::<char>::empty()),
    decreases entries.len(),
{
    if entries.len() == 0 {
        assert(saved_words(entries) =~= Seq::<Seq<char>>::empty());
    } else {
        let prev = entries.drop_last();
        let (a, p) = entries.last();
        assert forall|i: int| 0 <= i < prev.len() implies is_word(#[trigger] prev[i].0) by {
            assert(prev[i] == entries[i]);
        }
        lemma_scan_saved(prev);
        let t = protocol_token(p);
        lemma_tokens_are_words(p);
        assert(is_word(a)) by {
            assert(entries[entries.len() - 1].0 == a);
        }
        let x = saved_text(prev);
        lemma_scan_word(x, a);
        let x1 = (x + a).push(' ');
        lemma_scan_push(x + a, ' ');
        lemma_scan_word(x1, t);
        lemma_scan_push(x1 + t, '\n');
        assert(saved_text(entries) =~= (x1 + t).push('\n'));
        lemma_saved_words_push(entries);
    }
}

/// The favourites file reads back as written: saving servers whose
/// addresses are single words and loading the file gives the same address
/// and protocol pairs, in the same order.
pub proof fn lemma_saved_round_trip(entries: Seq<(Seq<char>, Protocol)>)
    requires
        forall|i: int| 0 <= i < entries.len() ==> is_word(#[trigger] entries[i].0),
    ensures
        word_pairs(words_of(saved_text(entries))).len() == entries.len(),
        forall|i: int|
            0 <= i < entries.len() ==> {
                let (a, t) = #[trigger] word_pairs(words_of(saved_text(entries)))[i];
                a == entries[i].0 && protocol_of_token(t) == Some(entries[i].1)
            },
{
    lemma_scan_saved(entries);
    assert(words_of(saved_text(entries)) == saved_words(entries));
    assert forall|i: int| 0 <= i < entries.len() implies {
        let (a, t) = #[trigger] word_pairs(words_of(saved_text(entries)))[i];
        a == entries[i].0 && protocol_of_token(t) == Some(entries[i].1)
    } by {
        assert((2 * i) / 2 == i);
        assert((2 * i + 1) / 2 == i);
        lemma_tokens_are_words(entries[i].1);
    }
}

} // verus!

verus! {

/// A favourite server.
#[derive(Copy, Clone, Debug, PartialEq, Eq, Structural)]
pub struct SavedServer {
    pub addr: NetAddr,
    pub protocol: Protocol,
}

impl SavedServer {
    pub open spec fn spec_addr(&self) -> NetAddr {
        self.addr
    }

    pub open spec fn spec_protocol(&self) -> Protocol {
        self.protocol
    }

    pub fn new(addr: NetAddr, protocol: Protocol) -> (r: Self)
        ensures
            r.spec_addr() == addr,
            r.spec_protocol() == protocol,
    {
        SavedServer { addr, protocol }
    }

    pub fn addr(&self) -> (r: &NetAddr)
        ensures
            *r == self.spec_addr(),
    {
        &self.addr
    }

    pub fn protocol(&self) -> (r: Protocol)
        ensures
            r == self.spec_protocol(),
    {
        self.protocol
    }
}

/// Whether a server of `list` has address `a`.
pub open spec fn has_addr(list: Seq<SavedServer>, a: NetAddr) -> bool {
    exists|i: int| 0 <= i < list.len() && (#[trigger] list[i]).spec_addr() == a
}

/// Whether the addresses of `list` are distinct.
pub open spec fn distinct_addrs(list: Seq<SavedServer>) -> bool {
    forall|i: int, j: int|
        0 <= i < list.len() && 0 <= j < list.len() && i != j ==> (#[trigger] list[i]).spec_addr()
            != (#[trigger] list[j]).spec_addr()
}

/// The favourites that loading file entries `e` gives: an entry whose
/// address did not read, whose protocol is unknown, or whose address came
/// before, is skipped.
pub open spec fn loaded(e: Seq<(Option<NetAddr>, Seq<char>)>) -> Seq<SavedServer>
    decreases e.len(),
{
    if e.len() == 0 {
        Seq::empty()
    } else {
        let prev = loaded(e.drop_last());
        let (a, t) = e.last();
        match (a, protocol_of_token(t)) {
            (Some(a), Some(p)) => if has_addr(prev, a) {
                prev
            } else {
                prev.push(SavedServer { addr: a, protocol: p })
            },
            _ => prev,
        }
    }
}

/// What saving the favourites comes to.
#[derive(Clone, Debug, PartialEq, Eq)]
pub enum SavePlan {
    /// Nothing changed since loading: leave the file alone.
    Keep,
    /// The list is empty: delete the file.
    Delete,
    /// Write this text.
    Write(String),
}

/// The favourite servers, each address once, in the order they were added.
pub struct SavedServers {
    list: Vec<SavedServer>,
    changed: bool,
}

impl SavedServers {
    pub closed spec fn spec_list(&self) -> Seq<SavedServer> {
        self.list@
    }

    pub closed spec fn spec_changed(&self) -> bool {
        self.changed
    }

    pub open spec fn wf(&self) -> bool {
        distinct_addrs(self.spec_list())
    }

    /// No favourites.
    pub fn new() -> (r: Self)
        ensures
            r.wf(),
            r.spec_list().len() == 0,
            !r.spec_changed(),
    {
        SavedServers { list: Vec::new(), changed: false }
    }

    /// The favourites that a file's entries give: each entry is an address,
    /// if it read, and a protocol word.
    pub fn from_entries(entries: &Vec<(Option<NetAddr>, String)>) -> (r: Self)
        ensures
            r.wf(),
            r.spec_list() == loaded(entries@.map_values(|e: (Option<NetAddr>, String)| (e.0, e.1@))),
            !r.spec_changed(),
    {
        let ghost es = entries@.map_values(|e: (Option<NetAddr>, String)| (e.0, e.1@));
        let mut servers = Self::new();
        let mut i: usize = 0;
        while i < entries.len()
            invariant
                es == entries@.map_values(|e: (Option<NetAddr>, String)| (e.0, e.1@)),
                i <= entries@.len(),
                servers.wf(),
                !servers.changed,
                servers.list@ == loaded(es.subrange(0, i as int)),
            decreases entries@.len() - i,
        {
            assert(es.subrange(0, i + 1).drop_last() =~= es.subrange(0, i as int));
            assert(es.subrange(0, i + 1).last() == es[i as int]);
            if let Some(addr) = entries[i].0 {
                if let Some(protocol) = parse_protocol(entries[i].1.as_str()) {
                    if !servers.contains(&addr) {
                        let ghost before = servers.list@;
                        servers.list.push(SavedServer { addr, protocol });
                        assert(distinct_addrs(servers.list@)) by {
                            assert forall|j: int| 0 <= j < before.len() implies (#[trigger] before[j]).spec_addr() != addr by {
                                if before[j].spec_addr() == addr {
                                    assert(has_addr(before, addr));
                                }
                            }
                        }
                    }
                }
            }
            i += 1;
        }
        assert(es.subrange(0, es.len() as int) =~= es);
        servers
    }

    pub fn contains(&self, addr: &NetAddr) -> (r: bool)
        ensures
            r == has_addr(self.spec_list(), *addr),
    {
        let mut i: usize = 0;
        while i < self.list.len()
            invariant
                i <= self.list@.len(),
                forall|j: int| 0 <= j < i ==> (#[trigger] self.list@[j]).spec_addr() != *addr,
            decreases self.list@.len() - i,
        {
            if self.list[i].addr == *addr {
                return true;
            }
            i += 1;
        }
        false
    }

    /// Adds a favourite unless its address is there already; returns it
    /// when added.
    pub fn insert(&mut self, addr: NetAddr, protocol: Protocol) -> (r: Option<SavedServer>)
        requires
            old(self).wf(),
        ensures
            final(self).wf(),
            has_addr(old(self).spec_list(), addr) ==> r is None && *final(self) == *old(self),
            !has_addr(old(self).spec_list(), addr) ==> {
                &&& r == Some(SavedServer { addr, protocol })
                &&& final(self).spec_list() == old(self).spec_list().push(
                    SavedServer { addr, protocol },
                )
                &&& final(self).spec_changed()
            },
    {
        if self.contains(&addr) {
            return None;
        }
        let ghost before = self.list@;
        self.changed = true;
        let s = SavedServer { addr, protocol };
        self.list.push(s);
        assert(distinct_addrs(self.list@)) by {
            assert forall|j: int| 0 <= j < before.len() implies (#[trigger] before[j]).spec_addr() != addr by {
                if before[j].spec_addr() == addr {
                    assert(has_addr(before, addr));
                }
            }
        }
        Some(s)
    }

    /// Takes the favourite with address `addr` out; returns it if there
    /// was one.
    pub fn remove(&mut self, addr: &NetAddr) -> (r: Option<SavedServer>)
        requires
            old(self).wf(),
        ensures
            final(self).wf(),
            !has_addr(old(self).spec_list(), *addr) ==> r is None && final(self).spec_list() == old(self).spec_list() && final(self).spec_changed() == old(self).spec_changed(),
            has_addr(old(self).spec_list(), *addr) ==> exists|i: int|
                0 <= i < old(self).spec_list().len() && old(self).spec_list()[i].spec_addr() == *addr
                    && r == Some(old(self).spec_list()[i]) && final(self).spec_list()
                    == old(self).spec_list().remove(i) && final(self).spec_changed(),
            !has_addr(final(self).spec_list(), *addr),
    {
        let mut i: usize = 0;
        while i < self.list.len()
            invariant
                i <= self.list@.len(),
                self.list@ == old(self).list@,
                self.changed == old(self).changed,
                distinct_addrs(self.list@),
                forall|j: int| 0 <= j < i ==> (#[trigger] self.list@[j]).spec_addr() != *addr,
            decreases self.list@.len() - i,
        {
            if self.list[i].addr == *addr {
                let ghost before = self.list@;
                self.changed = true;
                let s = self.list.remove(i);
                proof {
                    let after = self.list@;
                    assert(after =~= before.remove(i as int));
                    assert forall|a: int, b: int|
                        0 <= a < after.len() && 0 <= b < after.len() && a != b implies (
                        #[trigger] after[a]).spec_addr() != (#[trigger] after[b]).spec_addr() by {
                        let ia = if a < i { a } else { a + 1 };
                        let ib = if b < i { b } else { b + 1 };
                        assert(after[a] == before[ia]);
                        assert(after[b] == before[ib]);
                        assert(before[ia].spec_addr() != before[ib].spec_addr());
                    }
                    assert forall|j: int| 0 <= j < after.len() implies (#[trigger] after[j]).spec_addr() != *addr by {
                        let ij = if j < i { j } else { j + 1 };
                        assert(after[j] == before[ij]);
                        assert(before[ij].spec_addr() != before[i as int].spec_addr());
                    }
                }
                return Some(s);
            }
            i += 1;
        }
        None
    }

    /// Whether the list changed since it was loaded.
    pub fn is_changed(&self) -> (r: bool)
        ensures
            r == self.spec_changed(),
    {
        self.changed
    }

    /// The favourites in order.
    pub fn servers(&self) -> (r: &[SavedServer])
        ensures
            r@ == self.spec_list(),
    {
        self.list.as_slice()
    }

    /// What saving comes to, `addr_texts` being how the addresses of the
    /// list read, in order.
    pub fn save_plan(&self, addr_texts: &Vec<String>) -> (r: SavePlan)
        requires
            addr_texts@.len() == self.spec_list().len(),
        ensures
            !self.spec_changed() ==> r == SavePlan::Keep,
            self.spec_changed() && self.spec_list().len() == 0 ==> r == SavePlan::Delete,
            self.spec_changed() && self.spec_list().len() > 0 ==> (r matches SavePlan::Write(text)
                && text@ == saved_text(
                Seq::new(
                    self.spec_list().len(),
                    |i: int| (addr_texts@[i]@, self.spec_list()[i].spec_protocol()),
                ),
            )),
    {
        if !self.changed {
            return SavePlan::Keep;
        }
        if self.list.len() == 0 {
            return SavePlan::Delete;
        }
        let mut entries: Vec<(String, Protocol)> = Vec::new();
        let mut i: usize = 0;
        while i < self.list.len()
            invariant
                i <= self.list@.len(),
                addr_texts@.len() == self.list@.len(),
                entries@.map_values(|e: (String, Protocol)| (e.0@, e.1)) == Seq::new(
                    i as nat,
                    |j: int| (addr_texts@[j]@, self.list@[j].protocol),
                ),
            decreases self.list@.len() - i,
        {
            let ghost before = entries@.map_values(|e: (String, Protocol)| (e.0@, e.1));
            let a = addr_texts[i].clone();
            assert(a@ == addr_texts@[i as int]@);
            entries.push((a, self.list[i].protocol));
            assert(entries@.map_values(|e: (String, Protocol)| (e.0@, e.1)) =~= before.push(
                (addr_texts@[i as int]@, self.list@[i as int].protocol),
            ));
            assert(entries@.map_values(|e: (String, Protocol)| (e.0@, e.1)) =~= Seq::new(
                (i + 1) as nat,
                |j: int| (addr_texts@[j]@, self.list@[j].protocol),
            ));
            i += 1;
        }
        assert(entries@.map_values(|e: (String, Protocol)| (e.0@, e.1)) =~= Seq::new(
            self.spec_list().len(),
            |i: int| (addr_texts@[i]@, self.spec_list()[i].spec_protocol()),
        ));
        SavePlan::Write(format_saved(&entries))
    }
}

/// Adding a favourite whose address is already there does nothing: after
/// one insertion of an address, a second one finds it.
pub proof fn lemma_insert_twice(list: Seq<SavedServer>, addr: NetAddr, protocol: Protocol)
    ensures
        has_addr(list.push(SavedServer::new_spec(addr, protocol)), addr),
{
    let l = list.push(SavedServer::new_spec(addr, protocol));
    assert(l[list.len() as int].spec_addr() == addr);
}

impl SavedServer {
    pub open spec fn new_spec(addr: NetAddr, protocol: Protocol) -> Self {
        SavedServer { addr, protocol }
    }
}

} // verus!

verus! {

/// Loading drops nothing that is good: when every entry's address read, no
/// two addresses are the same and every protocol word is known, the
/// favourites are the entries, in order.
pub proof fn lemma_loaded_keeps_all(e: Seq<(Option<NetAddr>, Seq<char>)>)
    requires
        forall|i: int| 0 <= i < e.len() ==> (#[trigger] e[i]).0 is Some && protocol_of_token(e[i].1) is Some,
        forall|i: int, j: int| 0 <= i < e.len() && 0 <= j < e.len() && i != j ==> (#[trigger] e[i]).0 != (#[trigger] e[j]).0,
    ensures
        loaded(e).len() == e.len(),
        forall|i: int|
            0 <= i < e.len() ==> #[trigger] loaded(e)[i] == (SavedServer {
                addr: e[i].0->0,
                protocol: protocol_of_token(e[i].1)->0,
            }),
    decreases e.len(),
{
    if e.len() > 0 {
        let prev = e.drop_last();
        assert forall|i: int| 0 <= i < prev.len() implies (#[trigger] prev[i]).0 is Some && protocol_of_token(prev[i].1) is Some by {
            assert(prev[i] == e[i]);
        }
        assert forall|i: int, j: int| 0 <= i < prev.len() && 0 <= j < prev.len() && i != j implies (#[trigger] prev[i]).0 != (#[trigger] prev[j]).0 by {
            assert(prev[i] == e[i]);
            assert(prev[j] == e[j]);
        }
        lemma_loaded_keeps_all(prev);
        let last = e[e.len() - 1];
        assert(last.0 is Some && protocol_of_token(last.1) is Some);
        let a = last.0->0;
        assert(!has_addr(loaded(prev), a)) by {
            if has_addr(loaded(prev), a) {
                let k = choose|k: int| 0 <= k < loaded(prev).len() && (#[trigger] loaded(prev)[k]).spec_addr() == a;
                assert(loaded(prev)[k].addr == prev[k].0->0);
                assert(prev[k] == e[k]);
                assert(e[k].0 != e[e.len() - 1].0);
            }
        }
        assert forall|i: int| 0 <= i < e.len() implies #[trigger] loaded(e)[i] == (SavedServer {
            addr: e[i].0->0,
            protocol: protocol_of_token(e[i].1)->0,
        }) by {
            if i < prev.len() {
                assert(prev[i] == e[i]);
            }
        }
    }
}

} // verus!

verus! {

/// Saving the favourites and loading the file gives them back in order:
/// when each address is saved as a single word `texts[i]`, which the host
/// reads back as the address itself (`reads[i]`), the loaded list is the
/// saved one.
pub proof fn lemma_favourites_round_trip(
    servers: Seq<SavedServer>,
    texts: Seq<Seq<char>>,
    reads: Seq<Option<NetAddr>>,
)
    requires
        distinct_addrs(servers),
        texts.len() == servers.len(),
        reads.len() == servers.len(),
        forall|i: int| 0 <= i < texts.len() ==> is_word(#[trigger] texts[i]),
        forall|i: int| 0 <= i < reads.len() ==> #[trigger] reads[i] == Some(servers[i].addr),
    ensures
        ({
            let text = saved_text(
                Seq::new(servers.len(), |i: int| (texts[i], servers[i].protocol)),
            );
            let pairs = word_pairs(words_of(text));
            &&& pairs.len() == servers.len()
            &&& forall|i: int| 0 <= i < pairs.len() ==> (#[trigger] pairs[i]).0 == texts[i]
            &&& loaded(Seq::new(servers.len(), |i: int| (reads[i], pairs[i].1))) == servers
        }),
{
    let n = servers.len();
    let entries = Seq::new(n, |i: int| (texts[i], servers[i].protocol));
    assert forall|i: int| 0 <= i < entries.len() implies is_word(#[trigger] entries[i].0) by {
        assert(entries[i].0 == texts[i]);
    }
    lemma_saved_round_trip(entries);
    let pairs = word_pairs(words_of(saved_text(entries)));
    let e = Seq::new(n, |i: int| (reads[i], pairs[i].1));
    assert forall|i: int| 0 <= i < e.len() implies (#[trigger] e[i]).0 is Some && protocol_of_token(e[i].1) is Some by {
        let _ = pairs[i];
        assert(reads[i] == Some(servers[i].addr));
    }
    assert forall|i: int, j: int| 0 <= i < e.len() && 0 <= j < e.len() && i != j implies (#[trigger] e[i]).0 != (#[trigger] e[j]).0 by {
        assert(reads[i] == Some(servers[i].addr));
        assert(reads[j] == Some(servers[j].addr));
        assert(servers[i].spec_addr() != servers[j].spec_addr());
    }
    lemma_loaded_keeps_all(e);
    assert forall|i: int| 0 <= i < n implies loaded(e)[i] == servers[i] by {
        let _ = pairs[i];
        assert(reads[i] == Some(servers[i].addr));
        assert(protocol_of_token(pairs[i].1) == Some(entries[i].1));
    }
    assert(loaded(e) =~= servers);
    assert forall|i: int| 0 <= i < pairs.len() implies (#[trigger] pairs[i]).0 == texts[i] by {
        let _ = pairs[i];
    }
}

} // verus!
