use vstd::prelude::*;

use crate::teamcity::types::BuildType;

verus! {

/// One stored response together with the moment it was stored (seconds since
/// the Unix epoch) and how long it stays valid, in seconds.
pub struct PersistentCacheEntry<T> {
    pub data: T,
    pub timestamp: u64,
    pub ttl_seconds: u64,
}

/// Relies on std::time::SystemTime::now: the wall clock, in whole seconds since
/// the Unix epoch. Nothing is promised of the value, the clock may even go back.
#[verifier::external_body]
pub(crate) fn unix_now() -> (r: u64) {
    std::time::SystemTime::now()
        .duration_since(std::time::UNIX_EPOCH)
        .map(|d| d.as_secs())
        .unwrap_or(0)
}

impl<T> PersistentCacheEntry<T> {
    /// The entry is stale once the clock has moved strictly past the end of
    /// its lifetime.
    pub open spec fn expired_at(&self, now: int) -> bool {
        now > self.timestamp + self.ttl_seconds
    }

    /// An entry holding `data`, stored at `now` and valid for `ttl_seconds`.
    pub fn new_at(data: T, ttl_seconds: u64, now: u64) -> (r: Self)
        ensures
            r.data == data,
            r.timestamp == now,
            r.ttl_seconds == ttl_seconds,
    {
        PersistentCacheEntry { data, timestamp: now, ttl_seconds }
    }

    /// An entry holding `data`, stamped with the current time.
    pub fn new(data: T, ttl_seconds: u64) -> (r: Self)
        ensures
            r.data == data,
            r.ttl_seconds == ttl_seconds,
    {
        let now = unix_now();
        Self::new_at(data, ttl_seconds, now)
    }

    /// Whether the entry is stale at the instant `now`.
    pub fn is_expired_at(&self, now: u64) -> (r: bool)
        ensures
            r == self.expired_at(now as int),
    {
        now > self.timestamp && now - self.timestamp > self.ttl_seconds
    }

    /// Whether the entry is stale now; `r` is the verdict at some instant the
    /// clock reported during the call.
    pub fn is_expired(&self) -> (r: bool)
        ensures
            exists|now: u64| r == self.expired_at(now as int),
    {
        let now = unix_now();
        self.is_expired_at(now)
    }
}

/// What the entries say, key by key: a later entry for a key overrides an
/// earlier one.
pub open spec fn entries_map<E>(s: Seq<(String, E)>) -> Map<Seq<char>, E>
    decreases s.len(),
{
    if s.len() == 0 {
        Map::empty()
    } else {
        entries_map(s.drop_last()).insert(s.last().0@, s.last().1)
    }
}

/// The part of `m` that is still valid at `now`.
pub open spec fn fresh_part<T>(m: Map<Seq<char>, PersistentCacheEntry<T>>, now: int) -> Map<
    Seq<char>,
    PersistentCacheEntry<T>,
> {
    m.restrict(m.dom().filter(|k: Seq<char>| !m[k].expired_at(now)))
}

/// The entry that a lookup of `key` at `now` hands back: present and unexpired.
pub open spec fn fresh_hit<T>(m: Map<Seq<char>, PersistentCacheEntry<T>>, key: Seq<char>, now: int) -> Option<
    PersistentCacheEntry<T>,
> {
    if m.contains_key(key) && !m[key].expired_at(now) {
        Some(m[key])
    } else {
        None
    }
}

pub type ConfigEntry = PersistentCacheEntry<Vec<BuildType>>;

/// The response cache: build configurations keyed by query.
pub struct PersistentCache {
    entries: Vec<(String, ConfigEntry)>,
}

proof fn lemma_remove_at<E>(s: Seq<(String, E)>, i: int, k: Seq<char>)
    requires
        0 <= i < s.len(),
        s[i].0@ == k,
    ensures
        entries_map(s.remove(i)).remove(k) == entries_map(s).remove(k),
    decreases s.len(),
{
    let n = s.len();
    if i == n - 1 {
        assert(s.remove(i) =~= s.drop_last());
        assert(entries_map(s).remove(k) =~= entries_map(s.drop_last()).remove(k));
    } else {
        lemma_remove_at(s.drop_last(), i, k);
        assert(s.remove(i).drop_last() =~= s.drop_last().remove(i));
        assert(s.remove(i).last() == s.last());
        let m1 = entries_map(s.drop_last().remove(i));
        let m2 = entries_map(s.drop_last());
        assert(entries_map(s.remove(i)).remove(k) =~= m1.insert(s.last().0@, s.last().1).remove(k));
        if s.last().0@ == k {
            assert(m1.insert(k, s.last().1).remove(k) =~= m1.remove(k));
            assert(m2.insert(k, s.last().1).remove(k) =~= m2.remove(k));
        } else {
            assert(m1.insert(s.last().0@, s.last().1).remove(k) =~= m1.remove(k).insert(
                s.last().0@,
                s.last().1,
            ));
            assert(m2.insert(s.last().0@, s.last().1).remove(k) =~= m2.remove(k).insert(
                s.last().0@,
                s.last().1,
            ));
        }
    }
}

proof fn lemma_absent<E>(s: Seq<(String, E)>, k: Seq<char>)
    requires
        forall|j: int| 0 <= j < s.len() ==> s[j].0@ != k,
    ensures
        !entries_map(s).contains_key(k),
    decreases s.len(),
{
    if s.len() > 0 {
        lemma_absent(s.drop_last(), k);
    }
}

impl View for PersistentCache {
    type V = Map<Seq<char>, ConfigEntry>;

    closed spec fn view(&self) -> Self::V {
        entries_map(self.entries@)
    }
}

impl PersistentCache {
    /// A cache with no entries.
    pub fn new() -> (r: Self)
        ensures
            r@ == Map::<Seq<char>, ConfigEntry>::empty(),
    {
        PersistentCache { entries: Vec::new() }
    }

    /// Drops whatever is stored under `key`.
    pub fn remove(&mut self, key: &String)
        ensures
            final(self)@ == old(self)@.remove(key@),
    {
        let mut i: usize = 0;
        while i < self.entries.len()
            invariant
                0 <= i <= self.entries.len(),
                entries_map(self.entries@).remove(key@) == entries_map(old(self).entries@).remove(
                    key@,
                ),
                forall|j: int| 0 <= j < i ==> self.entries@[j].0@ != key@,
            decreases self.entries.len() - i,
        {
            if self.entries[i].0 == *key {
                proof {
                    lemma_remove_at(self.entries@, i as int, key@);
                }
                self.entries.remove(i);
            } else {
                i += 1;
            }
        }
        proof {
            lemma_absent(self.entries@, key@);
            assert(entries_map(self.entries@) =~= entries_map(self.entries@).remove(key@));
        }
    }

    /// Stores `entry` under `key`, replacing what was there.
    pub fn insert(&mut self, key: String, entry: ConfigEntry)
        ensures
            final(self)@ == old(self)@.insert(key@, entry),
    {
        self.remove(&key);
        let ghost before = self.entries@;
        let ghost k = key@;
        self.entries.push((key, entry));
        proof {
            assert(self.entries@.drop_last() =~= before);
            assert(old(self)@.remove(k).insert(k, entry) =~= old(self)@.insert(k, entry));
        }
    }

    /// The entry stored under `key`, whatever its age.
    pub fn get(&self, key: &String) -> (r: Option<&ConfigEntry>)
        ensures
            r is Some <==> self@.contains_key(key@),
            r is Some ==> *r.unwrap() == self@[key@],
    {
        let mut found: Option<usize> = None;
        let mut i: usize = 0;
        while i < self.entries.len()
            invariant
                0 <= i <= self.entries.len(),
                found is None <==> !entries_map(self.entries@.subrange(0, i as int)).contains_key(
                    key@,
                ),
                found is Some ==> found.unwrap() < i && entries_map(
                    self.entries@.subrange(0, i as int),
                )[key@] == self.entries@[found.unwrap() as int].1,
            decreases self.entries.len() - i,
        {
            proof {
                assert(self.entries@.subrange(0, i + 1).drop_last() =~= self.entries@.subrange(
                    0,
                    i as int,
                ));
            }
            if self.entries[i].0 == *key {
                found = Some(i);
            }
            i += 1;
        }
        proof {
            assert(self.entries@.subrange(0, self.entries@.len() as int) =~= self.entries@);
        }
        match found {
            Some(j) => Some(&self.entries[j].1),
            None => None,
        }
    }

    /// The entry under `key` if it is still valid at `now`.
    pub fn get_fresh(&self, key: &String, now: u64) -> (r: Option<&ConfigEntry>)
        ensures
            r is Some <==> fresh_hit(self@, key@, now as int) is Some,
            r is Some ==> *r.unwrap() == fresh_hit(self@, key@, now as int).unwrap(),
    {
        match self.get(key) {
            Some(entry) => {
                if entry.is_expired_at(now) {
                    None
                } else {
                    Some(entry)
                }
            },
            None => None,
        }
    }

    /// The cache that a stored list of entries amounts to at `now`: later
    /// entries override earlier ones with the same key, and whatever has
    /// expired by `now` is left out.
    pub fn from_entries(loaded: Vec<(String, ConfigEntry)>, now: u64) -> (r: Self)
        ensures
            r@ == fresh_part(entries_map(loaded@), now as int),
    {
        let ghost orig = loaded@;
        let mut cache = PersistentCache::new();
        let mut rest = loaded;
        proof {
            assert(orig.subrange(0, 0) =~= Seq::<(String, ConfigEntry)>::empty());
            assert(fresh_part(entries_map(orig.subrange(0, 0)), now as int) =~= Map::<
                Seq<char>,
                ConfigEntry,
            >::empty());
            assert(rest@ =~= orig.subrange(0, orig.len() as int));
        }
        while rest.len() > 0
            invariant
                rest@.len() <= orig.len(),
                rest@ == orig.subrange(orig.len() - rest@.len(), orig.len() as int),
                cache@ == fresh_part(
                    entries_map(orig.subrange(0, orig.len() - rest@.len())),
                    now as int,
                ),
            decreases rest.len(),
        {
            let ghost done = orig.len() - rest@.len();
            let (key, entry) = rest.remove(0);
            let ghost m = entries_map(orig.subrange(0, done));
            proof {
                assert(orig.subrange(0, done + 1).drop_last() =~= orig.subrange(0, done));
                assert(orig[done] == (key, entry));
                assert(rest@ =~= orig.subrange(done + 1, orig.len() as int));
            }
            if entry.is_expired_at(now) {
                proof {
                    assert(fresh_part(m.insert(key@, entry), now as int) =~= fresh_part(
                        m,
                        now as int,
                    ).remove(key@));
                }
                cache.remove(&key);
            } else {
                proof {
                    assert(fresh_part(m.insert(key@, entry), now as int) =~= fresh_part(
                        m,
                        now as int,
                    ).insert(key@, entry));
                }
                cache.insert(key, entry);
            }
        }
        proof {
            assert(orig.subrange(0, orig.len() as int) =~= orig);
        }
        cache
    }

    /// The entries, ready to be stored; read back in order they give this
    /// same cache.
    pub fn into_entries(self) -> (r: Vec<(String, ConfigEntry)>)
        ensures
            entries_map(r@) == self@,
    {
        self.entries
    }
}

/// An entry stored with a lifetime of zero is stale at every later second.
pub proof fn lemma_zero_ttl_expires<T>(e: PersistentCacheEntry<T>, now: int)
    requires
        e.ttl_seconds == 0,
        now > e.timestamp,
    ensures
        e.expired_at(now),
{
}

} // verus!
