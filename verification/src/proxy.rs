//! The proxy table: which SSH server each TLS server name is forwarded to.

use vstd::prelude::*;
use crate::addr::SockAddr;
use crate::text::str_eq;

verus! {

/// A map from server names to the addresses of SSH servers.
pub struct ProxyMap {
    entries: Vec<(String, SockAddr)>,
    map: Ghost<Map<Seq<char>, SockAddr>>,
}

impl View for ProxyMap {
    type V = Map<Seq<char>, SockAddr>;

    closed spec fn view(&self) -> Map<Seq<char>, SockAddr> {
        self.map@
    }
}

impl ProxyMap {
    /// The entries hold each name once, and the map holds exactly the entries.
    #[verifier::type_invariant]
    closed spec fn wf(&self) -> bool {
        &&& forall|i: int|
            0 <= i < self.entries@.len() ==> #[trigger] self.map@.contains_key(self.entries@[i].0@)
                && self.map@[self.entries@[i].0@] == self.entries@[i].1
        &&& forall|k: Seq<char>|
            #[trigger] self.map@.contains_key(k) ==> exists|i: int|
                0 <= i < self.entries@.len() && self.entries@[i].0@ == k
        &&& forall|i: int, j: int|
            0 <= i < self.entries@.len() && 0 <= j < self.entries@.len() && i != j
                ==> #[trigger] self.entries@[i].0@ != #[trigger] self.entries@[j].0@
    }

    /// The table of these entries, whose names `map` maps to their addresses.
    fn from_parts(entries: Vec<(String, SockAddr)>, map: Ghost<Map<Seq<char>, SockAddr>>) -> (t: ProxyMap)
        requires
            forall|i: int|
                0 <= i < entries@.len() ==> #[trigger] map@.contains_key(entries@[i].0@)
                    && map@[entries@[i].0@] == entries@[i].1,
            forall|k: Seq<char>|
                #[trigger] map@.contains_key(k) ==> exists|i: int|
                    0 <= i < entries@.len() && entries@[i].0@ == k,
            forall|i: int, j: int|
                0 <= i < entries@.len() && 0 <= j < entries@.len() && i != j
                    ==> #[trigger] entries@[i].0@ != #[trigger] entries@[j].0@,
        ensures
            t@ == map@,
    {
        let ghost t = ProxyMap { entries: entries, map: map };
        assert(t.entries@ == entries@ && t.map@ == map@);
        assert(t.wf());
        ProxyMap { entries, map }
    }

    /// What a lookup of `key` gives.
    pub open spec fn spec_get(&self, key: Seq<char>) -> Option<SockAddr> {
        if self@.contains_key(key) {
            Some(self@[key])
        } else {
            None
        }
    }

    /// An empty table.
    pub fn new() -> (m: ProxyMap)
        ensures
            m@ == Map::<Seq<char>, SockAddr>::empty(),
    {
        ProxyMap { entries: Vec::new(), map: Ghost(Map::empty()) }
    }

    /// The number of names in the table.
    pub fn len(&self) -> (n: usize)
        ensures
            n == self@.dom().len(),
    {
        proof {
            use_type_invariant(self);
            self.lemma_len();
        }
        self.entries.len()
    }

    proof fn lemma_len(&self)
        requires
            self.wf(),
        ensures
            self.entries@.len() == self@.dom().len(),
            self@.dom().finite(),
    {
        let keys = self.entries@.map_values(|e: (String, SockAddr)| e.0@);
        assert forall|i: int, j: int| 0 <= i < keys.len() && 0 <= j < keys.len() && i != j
            implies keys[i] != keys[j] by {
            assert(self.entries@[i].0@ != self.entries@[j].0@);
        }
        assert(keys.no_duplicates());
        assert(keys.to_set() =~= self@.dom()) by {
            assert forall|k: Seq<char>| #[trigger] self@.dom().contains(k) implies keys.to_set().contains(k) by {
                let i = choose|i: int| 0 <= i < self.entries@.len() && self.entries@[i].0@ == k;
                assert(keys[i] == k);
            }
            assert forall|k: Seq<char>| keys.to_set().contains(k) implies #[trigger] self@.dom().contains(k) by {
                let i = choose|i: int| 0 <= i < keys.len() && keys[i] == k;
                assert(self.map@.contains_key(self.entries@[i].0@));
            }
        }
        keys.unique_seq_to_set();
    }

    /// Whether the table is empty.
    pub fn is_empty(&self) -> (b: bool)
        ensures
            b == (self@ == Map::<Seq<char>, SockAddr>::empty()),
    {
        proof {
            use_type_invariant(self);
            self.lemma_len();
        }
        if self.entries.len() == 0 {
            assert(self@ =~= Map::<Seq<char>, SockAddr>::empty());
            true
        } else {
            assert(self@.contains_key(self.entries@[0].0@));
            false
        }
    }

    /// The position of `key` among the entries.
    fn find(&self, key: &str) -> (r: Option<usize>)
        ensures
            r matches Some(i) ==> i < self.entries@.len() && self.entries@[i as int].0@ == key@,
            r is None ==> !self@.contains_key(key@),
    {
        proof {
            use_type_invariant(self);
        }
        let mut i: usize = 0;
        while i < self.entries.len()
            invariant
                i <= self.entries@.len(),
                forall|j: int| 0 <= j < i ==> self.entries@[j].0@ != key@,
            decreases self.entries@.len() - i,
        {
            if str_eq(self.entries[i].0.as_str(), key) {
                return Some(i);
            }
            i = i + 1;
        }
        assert(!self@.contains_key(key@)) by {
            if self@.contains_key(key@) {
                let j = choose|j: int| 0 <= j < self.entries@.len() && self.entries@[j].0@ == key@;
                assert(self.entries@[j].0@ != key@);
            }
        }
        None
    }

    /// The address that `key` is forwarded to, if any.
    pub fn get(&self, key: &str) -> (r: Option<SockAddr>)
        ensures
            r == self.spec_get(key@),
    {
        proof {
            use_type_invariant(self);
        }
        match self.find(key) {
            Some(i) => Some(self.entries[i].1),
            None => None,
        }
    }

    /// Forwards `key` to `addr`, and returns the address it was forwarded to before.
    pub fn insert(&mut self, key: String, addr: SockAddr) -> (r: Option<SockAddr>)
        ensures
            final(self)@ == old(self)@.insert(key@, addr),
            r == old(self).spec_get(key@),
    {
        let found = self.find(key.as_str());
        let mut table = ProxyMap::new();
        std::mem::swap(&mut table, self);
        proof {
            use_type_invariant(&table);
        }
        let ghost before = table;
        let ProxyMap { mut entries, map } = table;
        let ghost k = key@;
        let ghost new_map = map@.insert(k, addr);
        match found {
            Some(i) => {
                let previous = entries[i].1;
                entries.set(i, (key, addr));
                assert forall|j: int| 0 <= j < entries@.len() && j != i
                    implies entries@[j].0@ != k by {
                    assert(before.entries@[j].0@ != before.entries@[i as int].0@);
                }
                assert forall|kk: Seq<char>| #[trigger] new_map.contains_key(kk) implies exists|j: int|
                    0 <= j < entries@.len() && entries@[j].0@ == kk by {
                    if kk != k {
                        assert(before.map@.contains_key(kk));
                        let j = choose|j: int| 0 <= j < before.entries@.len() && before.entries@[j].0@ == kk;
                        assert(entries@[j].0@ == kk);
                    } else {
                        assert(entries@[i as int].0@ == kk);
                    }
                }
                *self = ProxyMap::from_parts(entries, Ghost(new_map));
                Some(previous)
            },
            None => {
                entries.push((key, addr));
                assert forall|kk: Seq<char>| #[trigger] new_map.contains_key(kk) implies exists|j: int|
                    0 <= j < entries@.len() && entries@[j].0@ == kk by {
                    if kk != k {
                        assert(before.map@.contains_key(kk));
                        let j = choose|j: int| 0 <= j < before.entries@.len() && before.entries@[j].0@ == kk;
                        assert(entries@[j].0@ == kk);
                    } else {
                        assert(entries@[entries@.len() - 1].0@ == kk);
                    }
                }
                assert forall|i: int| 0 <= i < before.entries@.len() implies
                    before.entries@[i].0@ != k by {
                    assert(before.map@.contains_key(before.entries@[i].0@));
                }
                *self = ProxyMap::from_parts(entries, Ghost(new_map));
                None
            },
        }
    }
}

/// A lookup after an insertion gives the inserted address for the inserted
/// name and what it gave before for every other name.
pub proof fn lemma_get_after_insert(before: ProxyMap, after: ProxyMap, key: Seq<char>, addr: SockAddr, other: Seq<char>)
    requires
        after@ == before@.insert(key, addr),
    ensures
        after.spec_get(key) == Some(addr),
        other != key ==> after.spec_get(other) == before.spec_get(other),
{
}

} // verus!
