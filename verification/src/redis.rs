//! The ephemeral record store.
//!
//! A keyed store of short-lived records: each entry carries an absolute
//! expiry, and a read at or past that instant behaves exactly as if the
//! entry had never been written. Keys are namespaced by their callers
//! (a registration, recovery or second-factor prefix) so unrelated
//! workflows sharing the store cannot collide. Overwriting a key before
//! its expiry is permitted and resets its time to live.
//!
//! The store's contents are modelled as a map from key to value and
//! expiry; every operation is specified against that map.

use vstd::prelude::*;

use crate::models::PendingRegistration;

verus! {

/// A value held by the record store.
pub enum RecordValue {
    /// A bare presence marker (a pending second-factor login).
    Marker,
    /// A short text (an email for a code, or a code for an email).
    Text(String),
    /// A staged registration awaiting confirmation.
    Registration(PendingRegistration),
}

impl Clone for RecordValue {
    fn clone(&self) -> (r: Self)
        ensures
            r == *self,
    {
        match self {
            RecordValue::Marker => RecordValue::Marker,
            RecordValue::Text(s) => RecordValue::Text(s.clone()),
            RecordValue::Registration(p) => RecordValue::Registration(p.clone()),
        }
    }
}

struct Entry {
    key: String,
    value: RecordValue,
    expires_at: u64,
}

/// The map a sequence of entries denotes; later entries shadow earlier
/// ones, and the store keeps keys unique so no shadowing ever happens.
closed spec fn kv_map(s: Seq<Entry>) -> Map<Seq<char>, (RecordValue, u64)>
    decreases s.len(),
{
    if s.len() == 0 {
        Map::empty()
    } else {
        kv_map(s.drop_last()).insert(
            s.last().key@,
            (s.last().value, s.last().expires_at),
        )
    }
}

closed spec fn keys_unique(s: Seq<Entry>) -> bool {
    forall|i: int, j: int| 0 <= i < j < s.len() ==> s[i].key@ != s[j].key@
}

proof fn lemma_kv_contains(s: Seq<Entry>, k: Seq<char>)
    ensures
        kv_map(s).contains_key(k) <==> exists|i: int| 0 <= i < s.len() && s[i].key@ == k,
    decreases s.len(),
{
    if s.len() > 0 {
        lemma_kv_contains(s.drop_last(), k);
        if s.last().key@ == k {
            assert(s[s.len() - 1].key@ == k);
        } else {
            if kv_map(s).contains_key(k) {
                let i = choose|i: int| 0 <= i < s.drop_last().len() && s.drop_last()[i].key@ == k;
                assert(s[i].key@ == k);
            }
            if exists|i: int| 0 <= i < s.len() && s[i].key@ == k {
                let i = choose|i: int| 0 <= i < s.len() && s[i].key@ == k;
                assert(i < s.len() - 1);
                assert(s.drop_last()[i].key@ == k);
            }
        }
    }
}

proof fn lemma_kv_index(s: Seq<Entry>, i: int)
    requires
        keys_unique(s),
        0 <= i < s.len(),
    ensures
        kv_map(s).contains_key(s[i].key@),
        kv_map(s)[s[i].key@] == (s[i].value, s[i].expires_at),
    decreases s.len(),
{
    if i < s.len() - 1 {
        lemma_kv_index(s.drop_last(), i);
        assert(s.drop_last()[i] == s[i]);
        assert(s.last().key@ != s[i].key@);
    }
}

proof fn lemma_kv_update(s: Seq<Entry>, i: int, e: Entry)
    requires
        keys_unique(s),
        0 <= i < s.len(),
        e.key@ == s[i].key@,
    ensures
        kv_map(s.update(i, e)) == kv_map(s).insert(e.key@, (e.value, e.expires_at)),
        keys_unique(s.update(i, e)),
    decreases s.len(),
{
    let t = s.update(i, e);
    assert(keys_unique(t)) by {
        assert(forall|p: int, q: int|
            0 <= p < q < t.len() ==> t[p].key@ != t[q].key@) by {
            assert(forall|p: int| 0 <= p < t.len() && p != i ==> t[p] == s[p]);
        }
    }
    if i == s.len() - 1 {
        assert(t.drop_last() =~= s.drop_last());
        assert(kv_map(t) =~= kv_map(s).insert(e.key@, (e.value, e.expires_at)));
    } else {
        lemma_kv_update(s.drop_last(), i, e);
        assert(t.drop_last() =~= s.drop_last().update(i, e));
        assert(t.last() == s.last());
        assert(s.last().key@ != e.key@);
        assert(kv_map(t) =~= kv_map(s).insert(e.key@, (e.value, e.expires_at)));
    }
}

proof fn lemma_kv_remove(s: Seq<Entry>, i: int)
    requires
        keys_unique(s),
        0 <= i < s.len(),
    ensures
        kv_map(s.remove(i)) == kv_map(s).remove(s[i].key@),
        keys_unique(s.remove(i)),
    decreases s.len(),
{
    let t = s.remove(i);
    assert(keys_unique(t)) by {
        assert(forall|p: int| 0 <= p < i ==> t[p] == s[p]);
        assert(forall|p: int| i <= p < t.len() ==> t[p] == s[p + 1]);
    }
    if i == s.len() - 1 {
        assert(t =~= s.drop_last());
        lemma_kv_contains(s.drop_last(), s[i].key@);
        assert(!kv_map(s.drop_last()).contains_key(s[i].key@));
        assert(kv_map(t) =~= kv_map(s).remove(s[i].key@));
    } else {
        lemma_kv_remove(s.drop_last(), i);
        assert(t.drop_last() =~= s.drop_last().remove(i));
        assert(t.last() == s.last());
        assert(s.last().key@ != s[i].key@);
        assert(kv_map(t) =~= kv_map(s).remove(s[i].key@));
    }
}

/// The in-memory expiring key/value store the engine persists its
/// ephemeral records in.
pub struct RedisService {
    entries: Vec<Entry>,
}

impl RedisService {
    /// Keys are pairwise distinct.
    pub closed spec fn wf(self) -> bool {
        keys_unique(self.entries@)
    }

    /// The stored map: each key to its value and absolute expiry.
    pub closed spec fn contents(self) -> Map<Seq<char>, (RecordValue, u64)> {
        kv_map(self.entries@)
    }

    /// The value a read at `now` observes: present and unexpired, or
    /// nothing.
    pub open spec fn live_value(self, key: Seq<char>, now: u64) -> Option<RecordValue> {
        if self.contents().contains_key(key) && now < self.contents()[key].1 {
            Some(self.contents()[key].0)
        } else {
            None
        }
    }

    /// An empty store.
    pub fn new() -> (r: Self)
        ensures
            r.wf(),
            r.contents() == Map::<Seq<char>, (RecordValue, u64)>::empty(),
    {
        RedisService { entries: Vec::new() }
    }

    fn find_index(&self, key: &String) -> (r: Option<usize>)
        ensures
            match r {
                Some(i) => i < self.entries@.len() && self.entries@[i as int].key@ == key@,
                None => forall|i: int|
                    0 <= i < self.entries@.len() ==> self.entries@[i].key@ != key@,
            },
    {
        let n = self.entries.len();
        for i in 0..n
            invariant
                n == self.entries@.len(),
                forall|j: int| 0 <= j < i ==> self.entries@[j].key@ != key@,
        {
            if self.entries[i].key.eq(key) {
                return Some(i);
            }
        }
        None
    }

    /// Reads the record under `key` as of `now`: its value if present
    /// and unexpired, nothing otherwise.
    pub fn get(&self, key: &String, now: u64) -> (r: Option<RecordValue>)
        requires
            self.wf(),
        ensures
            r == self.live_value(key@, now),
    {
        match self.find_index(key) {
            Some(i) => {
                proof {
                    lemma_kv_index(self.entries@, i as int);
                }
                let e = &self.entries[i];
                if now < e.expires_at {
                    Some(e.value.clone())
                } else {
                    None
                }
            },
            None => {
                proof {
                    lemma_kv_contains(self.entries@, key@);
                }
                None
            },
        }
    }

    /// Writes `value` under `key` with no expiry; an existing record
    /// under the key is replaced.
    pub fn set(&mut self, key: String, value: RecordValue)
        requires
            old(self).wf(),
        ensures
            final(self).wf(),
            final(self).contents() == old(self).contents().insert(key@, (value, u64::MAX)),
    {
        self.write(key, value, u64::MAX)
    }

    /// Writes `value` under `key`, to expire `mins` minutes after `now`;
    /// an existing record under the key is replaced and its time to
    /// live reset.
    pub fn set_temporarily(&mut self, key: String, value: RecordValue, mins: u64, now: u64)
        requires
            old(self).wf(),
            now + mins * 60 <= u64::MAX,
        ensures
            final(self).wf(),
            final(self).contents() == old(self).contents().insert(
                key@,
                (value, (now + mins * 60) as u64),
            ),
    {
        self.write(key, value, now + mins * 60)
    }

    fn write(&mut self, key: String, value: RecordValue, expires_at: u64)
        requires
            old(self).wf(),
        ensures
            final(self).wf(),
            final(self).contents() == old(self).contents().insert(key@, (value, expires_at)),
    {
        match self.find_index(&key) {
            Some(i) => {
                proof {
                    lemma_kv_update(
                        self.entries@,
                        i as int,
                        Entry { key, value, expires_at },
                    );
                }
                self.entries[i] = Entry { key, value, expires_at };
            },
            None => {
                self.entries.push(Entry { key, value, expires_at });
                proof {
                    assert(self.entries@.drop_last() =~= old(self).entries@);
                    assert(keys_unique(self.entries@)) by {
                        assert(forall|p: int|
                            0 <= p < old(self).entries@.len() ==> self.entries@[p]
                                == old(self).entries@[p]);
                    }
                }
            },
        }
    }

    /// Deletes the record under `key`, if any.
    pub fn remove(&mut self, key: &String)
        requires
            old(self).wf(),
        ensures
            final(self).wf(),
            final(self).contents() == old(self).contents().remove(key@),
    {
        match self.find_index(key) {
            Some(i) => {
                proof {
                    lemma_kv_remove(self.entries@, i as int);
                }
                self.entries.remove(i);
            },
            None => {
                proof {
                    lemma_kv_contains(self.entries@, key@);
                    assert(self.contents().remove(key@) =~= self.contents());
                }
            },
        }
    }
}

} // verus!
