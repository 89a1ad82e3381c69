use vstd::prelude::*;

use crate::net::NetAddr;
use crate::saved_servers::{has_addr, SavedServers};
use crate::server_info::{parsed_info, Protocol, ServerInfo};

verus! {

/// A server as the browser lists it.
pub struct ServerEntry {
    /// Known only from the favourites, not heard from yet.
    pub fake: bool,
    pub favorite: bool,
    /// When the query went out, in milliseconds.
    pub query_time: u64,
    /// Round-trip time in milliseconds.
    pub ping: u64,
    pub info: ServerInfo,
}

/// The ping that an answer at `now` to a query sent at `sent` shows: legacy
/// servers answer twice, so their time is halved.
pub open spec fn ping_of(sent: u64, now: u64, protocol: Protocol) -> u64 {
    let t = if now >= sent { (now - sent) as u64 } else { 0 };
    if protocol == Protocol::Xash48 { (t / 2) as u64 } else { t }
}

impl ServerEntry {
    pub fn new(query_time: u64, info: ServerInfo) -> (r: Self)
        ensures
            !r.fake,
            !r.favorite,
            r.query_time == query_time,
            r.ping == 0,
            r.info == info,
    {
        ServerEntry { fake: false, favorite: false, query_time, ping: 0, info }
    }

    /// Measures the ping of an answer that came at `now`.
    pub fn update_ping(&mut self, now: u64)
        ensures
            final(self).ping == ping_of(old(self).query_time, now, old(self).info.protocol),
            final(self).query_time == old(self).query_time,
            final(self).info == old(self).info,
            final(self).fake == old(self).fake,
            final(self).favorite == old(self).favorite,
    {
        let t = if now >= self.query_time { now - self.query_time } else { 0 };
        self.ping = if self.info.protocol == Protocol::Xash48 { t / 2 } else { t };
    }

    /// Takes the record that the server sent.
    pub fn set_info(&mut self, info: ServerInfo)
        ensures
            !final(self).fake,
            final(self).info == info,
            final(self).query_time == old(self).query_time,
            final(self).favorite == old(self).favorite,
            final(self).ping == old(self).ping,
    {
        self.fake = false;
        self.info = info;
    }
}

/// The addresses of `entries`.
pub open spec fn entry_addrs(entries: Seq<ServerEntry>) -> Seq<NetAddr> {
    entries.map_values(|e: ServerEntry| e.info.addr)
}

/// Whether no address appears twice.
pub open spec fn distinct(addrs: Seq<NetAddr>) -> bool {
    forall|i: int, j: int| 0 <= i < addrs.len() && 0 <= j < addrs.len() && i != j ==> addrs[i] != addrs[j]
}

/// The servers that answered a query, each address once.
pub struct ServerList {
    entries: Vec<ServerEntry>,
    /// When the last query went out, in milliseconds.
    query_time: u64,
    sorted: bool,
}

impl ServerList {
    pub closed spec fn spec_entries(&self) -> Seq<ServerEntry> {
        self.entries@
    }

    pub closed spec fn spec_query_time(&self) -> u64 {
        self.query_time
    }

    pub closed spec fn spec_sorted(&self) -> bool {
        self.sorted
    }

    pub open spec fn wf(&self) -> bool {
        distinct(entry_addrs(self.spec_entries()))
    }

    pub fn new(query_time: u64) -> (r: Self)
        ensures
            r.wf(),
            r.spec_entries().len() == 0,
            r.spec_query_time() == query_time,
    {
        ServerList { entries: Vec::new(), query_time, sorted: true }
    }

    pub fn entries(&self) -> (r: &[ServerEntry])
        ensures
            r@ == self.spec_entries(),
    {
        self.entries.as_slice()
    }

    pub fn is_sorted(&self) -> (r: bool)
        ensures
            r == self.spec_sorted(),
    {
        self.sorted
    }

    /// Pings are measured from `now` on.
    pub fn reset_ping(&mut self, now: u64)
        ensures
            final(self).spec_query_time() == now,
            final(self).spec_entries() == old(self).spec_entries(),
            final(self).spec_sorted() == old(self).spec_sorted(),
    {
        self.query_time = now;
    }

    /// Where the entry of `addr` is.
    pub fn position(&self, addr: &NetAddr) -> (r: Option<usize>)
        ensures
            r matches Some(i) ==> i < self.spec_entries().len() && self.spec_entries()[i as int].info.addr
                == *addr,
            r is None ==> !entry_addrs(self.spec_entries()).contains(*addr),
    {
        let mut i: usize = 0;
        while i < self.entries.len()
            invariant
                i <= self.entries@.len(),
                forall|j: int| 0 <= j < i ==> self.entries@[j].info.addr != *addr,
            decreases self.entries@.len() - i,
        {
            if self.entries[i].info.addr == *addr {
                return Some(i);
            }
            i += 1;
        }
        proof {
            assert forall|j: int| 0 <= j < entry_addrs(self.spec_entries()).len() implies entry_addrs(
                self.spec_entries(),
            )[j] != *addr by {
                assert(entry_addrs(self.spec_entries())[j] == self.entries@[j].info.addr);
            }
        }
        None
    }

    /// A server at `addr` answered with record `info` at `now`. A server
    /// already listed takes the new record; another is added, marked as a
    /// favourite when `mark_favorites` and `favorites` hold it, unless
    /// `favorites_only` keeps out servers that are not. Returns whether the
    /// record read.
    pub fn add_server_to_list(
        &mut self,
        addr: NetAddr,
        info: &str,
        now: u64,
        favorites: &SavedServers,
        mark_favorites: bool,
        favorites_only: bool,
    ) -> (r: bool)
        requires
            old(self).wf(),
        ensures
            final(self).wf(),
            r == parsed_info(info@) is Some,
            !r ==> final(self).spec_entries() == old(self).spec_entries(),
            entry_addrs(old(self).spec_entries()).contains(addr) ==> final(self).spec_entries().len()
                == old(self).spec_entries().len(),
            r && !entry_addrs(old(self).spec_entries()).contains(addr) ==> {
                let favorite = mark_favorites && has_addr(favorites.spec_list(), addr);
                &&& final(self).spec_entries().len() == old(self).spec_entries().len() + (if favorites_only
                    && !favorite {
                    0int
                } else {
                    1int
                })
            },
            r && !(favorites_only && !(mark_favorites && has_addr(favorites.spec_list(), addr)))
                ==> entry_addrs(final(self).spec_entries()).contains(addr),
            r && entry_addrs(old(self).spec_entries()).contains(addr) ==> entry_addrs(
                final(self).spec_entries(),
            ).contains(addr),
            forall|j: int|
                0 <= j < old(self).spec_entries().len() && old(self).spec_entries()[j].info.addr != addr
                    ==> final(self).spec_entries()[j] == old(self).spec_entries()[j],
    {
        let parsed = ServerInfo::parse(addr, info);
        let info = match parsed {
            Some(info) => info,
            None => {
                return false;
            },
        };
        let ghost before = self.entries@;
        match self.position(&addr) {
            Some(i) => {
                let mut entry = self.entries.remove(i);
                entry.set_info(info);
                entry.update_ping(now);
                self.entries.insert(i, entry);
                self.sorted = false;
                proof {
                    assert(self.entries@ =~= before.update(i as int, self.entries@[i as int]));
                    assert(entry_addrs(self.entries@) =~= entry_addrs(before));
                    assert(entry_addrs(self.entries@)[i as int] == addr);
                }
            },
            None => {
                let mut entry = ServerEntry::new(self.query_time, info);
                entry.update_ping(now);
                if mark_favorites {
                    entry.favorite = favorites.contains(&addr);
                }
                if !favorites_only || entry.favorite {
                    self.entries.push(entry);
                    self.sorted = false;
                    proof {
                        assert(entry_addrs(self.entries@) =~= entry_addrs(before).push(addr));
                        assert(entry_addrs(self.entries@)[before.len() as int] == addr);
                    }
                }
            },
        }
        true
    }
}

/// A server heard from twice is listed once: once an answer from `addr`
/// has been taken, a later one from the same address adds no entry.
pub proof fn lemma_duplicate_answer(entries: Seq<ServerEntry>, addr: NetAddr, k: int)
    requires
        0 <= k < entries.len(),
        entries[k].info.addr == addr,
    ensures
        entry_addrs(entries).contains(addr),
{
    assert(entry_addrs(entries)[k] == addr);
}

} // verus!
