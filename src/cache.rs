use vstd::prelude::*;

use crate::job::time_after;

verus! {

/// A cached value and the time after which it is stale, in milliseconds
/// since the Unix epoch.
#[derive(Debug, Clone)]
pub struct CacheEntry {
    pub value: String,
    pub expires_at: Option<i64>,
}

/// Whether an entry is stale at time `now_ms`.
pub open spec fn entry_expired(expires_at: Option<i64>, now_ms: i64) -> bool {
    match expires_at {
        Some(t) => now_ms > t,
        None => false,
    }
}

impl CacheEntry {
    /// Whether the entry is stale at time `now_ms`.
    pub fn is_expired(&self, now_ms: i64) -> (r: bool)
        ensures
            r == entry_expired(self.expires_at, now_ms),
    {
        match self.expires_at {
            Some(t) => now_ms > t,
            None => false,
        }
    }
}

/// The map that a list of entries describes: each key to its text and expiry.
pub open spec fn entry_map(s: Seq<(String, CacheEntry)>) -> Map<Seq<char>, (Seq<char>, Option<i64>)>
    decreases s.len(),
{
    if s.len() == 0 {
        Map::empty()
    } else {
        entry_map(s.drop_last()).insert(s.last().0@, (s.last().1.value@, s.last().1.expires_at))
    }
}

/// No key appears twice.
pub open spec fn keys_unique(s: Seq<(String, CacheEntry)>) -> bool {
    forall|i: int, j: int|
        0 <= i < s.len() && 0 <= j < s.len() && i != j ==> s[i].0@ != s[j].0@
}

proof fn lemma_entry_map_keys(s: Seq<(String, CacheEntry)>, k: Seq<char>)
    ensures
        entry_map(s).contains_key(k) <==> exists|i: int| 0 <= i < s.len() && s[i].0@ == k,
    decreases s.len(),
{
    if s.len() > 0 {
        let p = s.drop_last();
        lemma_entry_map_keys(p, k);
        if entry_map(p).contains_key(k) {
            let i = choose|i: int| 0 <= i < p.len() && p[i].0@ == k;
            assert(s[i] == p[i]);
        }
        if exists|i: int| 0 <= i < s.len() && s[i].0@ == k {
            let i = choose|i: int| 0 <= i < s.len() && s[i].0@ == k;
            if i < s.len() - 1 {
                assert(p[i] == s[i]);
            }
        }
    }
}

proof fn lemma_entry_map_value(s: Seq<(String, CacheEntry)>, i: int)
    requires
        keys_unique(s),
        0 <= i < s.len(),
    ensures
        entry_map(s).contains_key(s[i].0@),
        entry_map(s)[s[i].0@] == (s[i].1.value@, s[i].1.expires_at),
    decreases s.len(),
{
    if i < s.len() - 1 {
        let p = s.drop_last();
        assert(p[i] == s[i]);
        assert(keys_unique(p)) by {
            assert forall|a: int, b: int|
                0 <= a < p.len() && 0 <= b < p.len() && a != b implies p[a].0@ != p[b].0@ by {
                assert(p[a] == s[a] && p[b] == s[b]);
            }
        }
        lemma_entry_map_value(p, i);
        assert(s[i].0@ != s[s.len() - 1].0@);
    }
}

proof fn lemma_entry_map_remove(s: Seq<(String, CacheEntry)>, i: int)
    requires
        keys_unique(s),
        0 <= i < s.len(),
    ensures
        entry_map(s.remove(i)) == entry_map(s).remove(s[i].0@),
        keys_unique(s.remove(i)),
    decreases s.len(),
{
    let p = s.drop_last();
    let k = s[i].0@;
    assert(keys_unique(p)) by {
        assert forall|a: int, b: int|
            0 <= a < p.len() && 0 <= b < p.len() && a != b implies p[a].0@ != p[b].0@ by {
            assert(p[a] == s[a] && p[b] == s[b]);
        }
    }
    let r = s.remove(i);
    assert(keys_unique(r)) by {
        assert forall|a: int, b: int|
            0 <= a < r.len() && 0 <= b < r.len() && a != b implies r[a].0@ != r[b].0@ by {
            let sa = if a < i {
                a
            } else {
                a + 1
            };
            let sb = if b < i {
                b
            } else {
                b + 1
            };
            assert(r[a] == s[sa] && r[b] == s[sb]);
        }
    }
    if i == s.len() - 1 {
        assert(r =~= p);
        lemma_entry_map_keys(p, k);
        assert forall|j: int| 0 <= j < p.len() implies p[j].0@ != k by {
            assert(p[j] == s[j]);
        }
        assert(!entry_map(p).contains_key(k));
        assert(entry_map(s).remove(k) =~= entry_map(p));
    } else {
        assert(r.drop_last() =~= p.remove(i));
        assert(r.last() == s.last());
        assert(p[i] == s[i]);
        lemma_entry_map_remove(p, i);
        assert(s.last().0@ != k);
        assert(entry_map(r) =~= entry_map(s).remove(k));
    }
}

/// A key-value cache held in process memory, whose entries may expire.
/// Data is lost when the process ends.
pub struct InMemoryCache {
    entries: Vec<(String, CacheEntry)>,
}

impl Default for InMemoryCache {
    fn default() -> (r: Self)
        ensures
            r.wf(),
            r@ == Map::<Seq<char>, (Seq<char>, Option<i64>)>::empty(),
    {
        InMemoryCache::new()
    }
}

impl InMemoryCache {
    /// What the cache holds: each key to its text and expiry.
    pub closed spec fn view(&self) -> Map<Seq<char>, (Seq<char>, Option<i64>)> {
        entry_map(self.entries@)
    }

    /// No key is held twice.
    pub closed spec fn wf(&self) -> bool {
        keys_unique(self.entries@)
    }

    /// An empty cache.
    pub fn new() -> (r: InMemoryCache)
        ensures
            r.wf(),
            r@ == Map::<Seq<char>, (Seq<char>, Option<i64>)>::empty(),
    {
        InMemoryCache { entries: Vec::new() }
    }

    fn position(&self, key: &String) -> (r: Option<usize>)
        requires
            self.wf(),
        ensures
            r is Some ==> r->0 < self.entries@.len() && self.entries@[r->0 as int].0@ == key@,
            r is None ==> !self@.contains_key(key@),
    {
        let n = self.entries.len();
        let mut i: usize = 0;
        while i < n
            invariant
                n == self.entries@.len(),
                0 <= i <= n,
                forall|j: int| 0 <= j < i ==> self.entries@[j].0@ != key@,
            decreases n - i,
        {
            if self.entries[i].0 == *key {
                return Some(i);
            }
            i += 1;
        }
        proof {
            lemma_entry_map_keys(self.entries@, key@);
        }
        None
    }

    /// The live value under `key` at time `now_ms`. A stale entry is
    /// dropped and reads as absent.
    pub fn get(&mut self, key: &str, now_ms: i64) -> (r: Option<String>)
        requires
            old(self).wf(),
        ensures
            final(self).wf(),
            !old(self)@.contains_key(key@) ==> r is None && final(self)@ == old(self)@,
            old(self)@.contains_key(key@) && entry_expired(old(self)@[key@].1, now_ms) ==> {
                &&& r is None
                &&& final(self)@ == old(self)@.remove(key@)
            },
            old(self)@.contains_key(key@) && !entry_expired(old(self)@[key@].1, now_ms) ==> {
                &&& r is Some
                &&& r->0@ == old(self)@[key@].0
                &&& final(self)@ == old(self)@
            },
    {
        let k = key.to_owned();
        match self.position(&k) {
            None => None,
            Some(i) => {
                proof {
                    lemma_entry_map_value(self.entries@, i as int);
                }
                if self.entries[i].1.is_expired(now_ms) {
                    proof {
                        lemma_entry_map_remove(self.entries@, i as int);
                    }
                    self.entries.remove(i);
                    None
                } else {
                    Some(self.entries[i].1.value.clone())
                }
            },
        }
    }

    /// Stores `value` under `key`, stale `ttl_ms` after `now_ms` when a
    /// time to live is given, and never otherwise; an older entry under the
    /// key is replaced.
    pub fn set(&mut self, key: &str, value: &str, ttl_ms: Option<i64>, now_ms: i64)
        requires
            old(self).wf(),
        ensures
            final(self).wf(),
            final(self)@ == old(self)@.insert(
                key@,
                (
                    value@,
                    match ttl_ms {
                        Some(d) => Some(time_after(now_ms, d)),
                        None => None,
                    },
                ),
            ),
    {
        let k = key.to_owned();
        let expires_at = match ttl_ms {
            Some(d) => Some(
                match now_ms.checked_add(d) {
                    Some(t) => t,
                    None => if d > 0 {
                        i64::MAX
                    } else {
                        i64::MIN
                    },
                },
            ),
            None => None,
        };
        if let Some(i) = self.position(&k) {
            proof {
                lemma_entry_map_remove(self.entries@, i as int);
            }
            self.entries.remove(i);
        }
        proof {
            lemma_entry_map_keys(self.entries@, k@);
        }
        let ghost before = self.entries@;
        self.entries.push((k, CacheEntry { value: value.to_owned(), expires_at }));
        proof {
            assert(self.entries@.drop_last() =~= before);
            assert(keys_unique(self.entries@)) by {
                assert forall|a: int, b: int|
                    0 <= a < self.entries@.len() && 0 <= b < self.entries@.len() && a != b
                        implies self.entries@[a].0@ != self.entries@[b].0@ by {
                    if a < before.len() && b < before.len() {
                        assert(self.entries@[a] == before[a] && self.entries@[b] == before[b]);
                    } else if a < before.len() {
                        assert(self.entries@[a] == before[a]);
                    } else if b < before.len() {
                        assert(self.entries@[b] == before[b]);
                    }
                }
            }
            assert(entry_map(self.entries@) =~= entry_map(before).insert(
                key@,
                (value@, expires_at),
            ));
        }
    }

    /// Drops whatever is stored under `key`.
    pub fn delete(&mut self, key: &str)
        requires
            old(self).wf(),
        ensures
            final(self).wf(),
            final(self)@ == old(self)@.remove(key@),
    {
        let k = key.to_owned();
        match self.position(&k) {
            Some(i) => {
                proof {
                    lemma_entry_map_remove(self.entries@, i as int);
                }
                self.entries.remove(i);
            },
            None => {
                assert(old(self)@.remove(key@) =~= old(self)@);
            },
        }
    }

    /// Whether a live value is stored under `key` at time `now_ms`; a stale
    /// entry is dropped on the way, as `get` does.
    pub fn contains(&mut self, key: &str, now_ms: i64) -> (r: bool)
        requires
            old(self).wf(),
        ensures
            final(self).wf(),
            r == (old(self)@.contains_key(key@) && !entry_expired(old(self)@[key@].1, now_ms)),
            r ==> final(self)@ == old(self)@,
    {
        self.get(key, now_ms).is_some()
    }
}

} // verus!
