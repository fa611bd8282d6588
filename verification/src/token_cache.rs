//! A time-to-live key→value store for bearer credentials. An entry becomes
//! unreadable once the store's lifetime has elapsed after its insertion,
//! regardless of access pattern (time-to-live, not time-to-idle). Time is
//! an explicit parameter: every reading and writing operation takes the
//! current clock value in seconds, so the store's behaviour is a function
//! of its inputs and is verified for every clock value.

use vstd::prelude::*;

verus! {

/// One stored pair with its insertion time.
pub struct CacheEntry {
    pub key: String,
    pub value: String,
    pub stored_at: u64,
}

/// The store: a lifetime in seconds and the live entries, one per key.
pub struct TokenCache {
    pub ttl_seconds: u64,
    pub entries: Vec<CacheEntry>,
}

impl TokenCache {
    /// At most one entry per key.
    pub open spec fn wf(&self) -> bool {
        forall|i: int, j: int|
            0 <= i < j < self.entries@.len() ==> (#[trigger] self.entries@[i]).key@ != (
            #[trigger] self.entries@[j]).key@
    }

    /// The stored value and insertion time for a key, if any entry holds it.
    pub open spec fn spec_lookup(&self, k: Seq<char>) -> Option<(Seq<char>, u64)> {
        if exists|i: int| 0 <= i < self.entries@.len() && (#[trigger] self.entries@[i]).key@ == k {
            let i = choose|i: int|
                0 <= i < self.entries@.len() && (#[trigger] self.entries@[i]).key@ == k;
            Some((self.entries@[i].value@, self.entries@[i].stored_at))
        } else {
            None
        }
    }

    /// What a read at clock value `now` returns: the stored value while the
    /// lifetime has not elapsed, nothing afterwards and nothing for an
    /// absent key.
    pub open spec fn spec_get(&self, k: Seq<char>, now: u64) -> Option<Seq<char>> {
        match self.spec_lookup(k) {
            Some((v, t)) => {
                if (now as int) < t + self.ttl_seconds {
                    Some(v)
                } else {
                    None
                }
            },
            None => None,
        }
    }

    /// An empty store with the given entry lifetime in seconds.
    pub fn new(ttl_seconds: u64) -> (r: TokenCache)
        ensures
            r.wf(),
            r.ttl_seconds == ttl_seconds,
            forall|k: Seq<char>| r.spec_lookup(k) is None,
    {
        TokenCache { ttl_seconds, entries: Vec::new() }
    }

    /// The index of the entry holding `key`, if one does.
    fn find(&self, key: &str) -> (r: Option<usize>)
        requires
            self.wf(),
        ensures
            r matches Some(i) ==> i < self.entries@.len() && self.entries@[i as int].key@ == key@,
            r is None ==> self.spec_lookup(key@) is None,
    {
        let mut i: usize = 0;
        while i < self.entries.len()
            invariant
                i <= self.entries@.len(),
                forall|j: int| 0 <= j < i ==> (#[trigger] self.entries@[j]).key@ != key@,
            decreases self.entries@.len() - i,
        {
            if crate::text_util::chars_eq_str(
                &crate::text_util::str_chars(self.entries[i].key.as_str()),
                key,
            ) {
                return Some(i);
            }
            i += 1;
        }
        None
    }

    /// Reads `key` at clock value `now`. Returns the stored value exactly
    /// when the key is present and its lifetime has not elapsed.
    pub fn get(&self, key: &str, now: u64) -> (r: Option<String>)
        requires
            self.wf(),
        ensures
            r matches Some(v) ==> self.spec_get(key@, now) matches Some(sv) && v@ == sv,
            r is None ==> self.spec_get(key@, now) is None,
    {
        match self.find(key) {
            Some(i) => {
                let e = &self.entries[i];
                proof {
                    let wit = choose|j: int|
                        0 <= j < self.entries@.len() && (#[trigger] self.entries@[j]).key@ == key@;
                    assert(wit == i as int);
                }
                if (now as u128) < (e.stored_at as u128) + (self.ttl_seconds as u128) {
                    Some(e.value.clone())
                } else {
                    None
                }
            },
            None => None,
        }
    }

    /// Stores `value` under `key` at clock value `now`, replacing any
    /// previous entry for the key. Every other key is untouched.
    pub fn set(&mut self, key: String, value: String, now: u64)
        requires
            old(self).wf(),
        ensures
            final(self).wf(),
            final(self).ttl_seconds == old(self).ttl_seconds,
            final(self).spec_lookup(key@) matches Some((v, t)) && v == value@ && t == now,
            forall|k: Seq<char>|
                k != key@ ==> #[trigger] final(self).spec_lookup(k) == old(self).spec_lookup(k),
    {
        self.remove_key(key.as_str());
        let ghost pre = *self;
        self.entries.push(CacheEntry { key, value, stored_at: now });
        proof {
            let n = pre.entries@.len() as int;
            assert(self.entries@[n].key@ == key@);
            assert forall|k: Seq<char>| k != key@ implies #[trigger] self.spec_lookup(k)
                == pre.spec_lookup(k) by {
                if exists|i: int| 0 <= i < pre.entries@.len() && (#[trigger] pre.entries@[i]).key@
                    == k {
                    let i = choose|i: int|
                        0 <= i < pre.entries@.len() && (#[trigger] pre.entries@[i]).key@ == k;
                    assert(self.entries@[i].key@ == k);
                } else {
                    if exists|i: int| 0 <= i < self.entries@.len() && (
                    #[trigger] self.entries@[i]).key@ == k {
                        let i = choose|i: int|
                            0 <= i < self.entries@.len() && (#[trigger] self.entries@[i]).key@
                                == k;
                        assert(i == n);
                        assert(false);
                    }
                }
            }
        }
    }

    /// Removes the entry for `key`, if one is held; every other key is
    /// untouched.
    fn remove_key(&mut self, key: &str)
        requires
            old(self).wf(),
        ensures
            final(self).wf(),
            final(self).ttl_seconds == old(self).ttl_seconds,
            final(self).spec_lookup(key@) is None,
            forall|k: Seq<char>|
                k != key@ ==> #[trigger] final(self).spec_lookup(k) == old(self).spec_lookup(k),
    {
        let ghost pre = *self;
        match self.find(key) {
            Some(i) => {
                self.entries.remove(i);
                proof {
                    let n = self.entries@.len() as int;
                    assert forall|k: Seq<char>| k != key@ implies #[trigger] self.spec_lookup(k)
                        == pre.spec_lookup(k) by {
                        if exists|a: int| 0 <= a < pre.entries@.len() && (
                        #[trigger] pre.entries@[a]).key@ == k {
                            let a = choose|a: int|
                                0 <= a < pre.entries@.len() && (#[trigger] pre.entries@[a]).key@
                                    == k;
                            if a < i as int {
                                assert(self.entries@[a].key@ == k);
                            } else {
                                assert(a != i as int);
                                assert(self.entries@[a - 1].key@ == k);
                            }
                        } else {
                            if exists|a: int| 0 <= a < self.entries@.len() && (
                            #[trigger] self.entries@[a]).key@ == k {
                                let a = choose|a: int|
                                    0 <= a < self.entries@.len() && (
                                    #[trigger] self.entries@[a]).key@ == k;
                                if a < i as int {
                                    assert(pre.entries@[a].key@ == k);
                                } else {
                                    assert(pre.entries@[a + 1].key@ == k);
                                }
                                assert(false);
                            }
                        }
                    }
                    if exists|a: int| 0 <= a < self.entries@.len() && (
                    #[trigger] self.entries@[a]).key@ == key@ {
                        let a = choose|a: int|
                            0 <= a < self.entries@.len() && (#[trigger] self.entries@[a]).key@
                                == key@;
                        if a < i as int {
                            assert(pre.entries@[a].key@ == key@);
                        } else {
                            assert(pre.entries@[a + 1].key@ == key@);
                        }
                        assert(false);
                    }
                }
            },
            None => {},
        }
    }

    /// Drops the entry for one key.
    pub fn invalidate(&mut self, key: &str)
        requires
            old(self).wf(),
        ensures
            final(self).wf(),
            final(self).ttl_seconds == old(self).ttl_seconds,
            final(self).spec_lookup(key@) is None,
            forall|k: Seq<char>|
                k != key@ ==> #[trigger] final(self).spec_lookup(k) == old(self).spec_lookup(k),
    {
        self.remove_key(key);
    }

    /// Drops every entry: any immediately following read returns nothing.
    pub fn invalidate_all(&mut self)
        requires
            old(self).wf(),
        ensures
            final(self).wf(),
            final(self).ttl_seconds == old(self).ttl_seconds,
            forall|k: Seq<char>| #[trigger] final(self).spec_lookup(k) is None,
    {
        self.entries = Vec::new();
    }
}

/// Law: a value stored at time `t` is returned by any read of the same key
/// while the lifetime has not elapsed.
pub proof fn lemma_get_within_ttl(c: TokenCache, k: Seq<char>, v: Seq<char>, t: u64, now: u64)
    requires
        c.spec_lookup(k) == Some::<(Seq<char>, u64)>((v, t)),
        (now as int) < t + c.ttl_seconds,
    ensures
        c.spec_get(k, now) == Some(v),
{
}

/// Law: once the lifetime has elapsed since an entry was stored, a read of
/// its key returns nothing, regardless of access pattern in between.
pub proof fn lemma_get_after_ttl(c: TokenCache, k: Seq<char>, v: Seq<char>, t: u64, now: u64)
    requires
        c.spec_lookup(k) == Some::<(Seq<char>, u64)>((v, t)),
        (now as int) >= t + c.ttl_seconds,
    ensures
        c.spec_get(k, now) is None,
{
}

/// Law: after every entry is dropped, a read of any key at any clock value
/// returns nothing.
pub proof fn lemma_get_after_invalidate_all(c: TokenCache, k: Seq<char>, now: u64)
    requires
        c.spec_lookup(k) is None,
    ensures
        c.spec_get(k, now) is None,
{
}

} // verus!
