//! The cache store: a mapping from composite key (identity, filter) to a
//! timestamped payload. Lookup is side-effect-free and does not judge
//! freshness; insertion replaces any prior entry wholesale. Freshness is a
//! policy owned by the coordinator: an entry is usable only within the fixed
//! time window after insertion.

use vstd::prelude::*;

use crate::filters::Filter;

verus! {

/// Seconds an entry stays fresh after insertion.
pub const TTL_SECONDS: u64 = 3600;

/// Composite cache key. Two requests with the same identity but different
/// filters name distinct entries.
#[derive(Clone, Copy, Debug, PartialEq, Eq, Structural, Hash)]
pub struct CacheKey {
    pub id: i64,
    pub filter: Filter,
}

/// A stored entry: the moment it was inserted, in seconds of a monotonic
/// clock, and the payload in its portable text representation.
pub struct CacheEntry {
    pub inserted_at: u64,
    pub payload: String,
}

/// The mathematical image of one entry.
#[verifier::ext_equal]
pub struct EntryModel {
    pub inserted_at: u64,
    pub payload: Seq<char>,
}

pub open spec fn entry_model(e: CacheEntry) -> EntryModel {
    EntryModel { inserted_at: e.inserted_at, payload: e.payload@ }
}

/// The map a sequence of key/entry pairs denotes; later pairs win.
pub open spec fn map_of(s: Seq<(CacheKey, CacheEntry)>) -> Map<CacheKey, EntryModel>
    decreases s.len(),
{
    if s.len() == 0 {
        Map::empty()
    } else {
        map_of(s.drop_last()).insert(s.last().0, entry_model(s.last().1))
    }
}

/// An entry inserted at `inserted_at` is fresh at `now` while less than the
/// TTL has elapsed.
pub open spec fn fresh_at(inserted_at: u64, now: u64) -> bool {
    now < inserted_at + TTL_SECONDS
}

/// Freshness check, the policy decision made by the coordinator from an
/// entry's insertion time.
pub fn is_fresh(inserted_at: u64, now: u64) -> (r: bool)
    ensures
        r == fresh_at(inserted_at, now),
{
    now <= inserted_at || now - inserted_at < TTL_SECONDS
}

/// The store: one logical table from key to entry, unbounded, created empty,
/// entries replaced wholesale on insertion.
pub struct CacheStore {
    entries: Vec<(CacheKey, CacheEntry)>,
}

impl View for CacheStore {
    type V = Map<CacheKey, EntryModel>;

    closed spec fn view(&self) -> Map<CacheKey, EntryModel> {
        map_of(self.entries@)
    }
}

proof fn lemma_map_of_contains(s: Seq<(CacheKey, CacheEntry)>, k: CacheKey)
    ensures
        map_of(s).contains_key(k) <==> exists|i: int| 0 <= i < s.len() && s[i].0 == k,
    decreases s.len(),
{
    if s.len() > 0 {
        lemma_map_of_contains(s.drop_last(), k);
        if s.last().0 == k {
            assert(s[s.len() - 1].0 == k);
        } else if map_of(s).contains_key(k) {
            let i = choose|i: int| 0 <= i < s.drop_last().len() && s.drop_last()[i].0 == k;
            assert(s[i].0 == k);
        } else {
            assert forall|i: int| 0 <= i < s.len() implies s[i].0 != k by {
                if i < s.len() - 1 {
                    assert(s.drop_last()[i].0 != k);
                }
            }
        }
    }
}

proof fn lemma_map_of_index(s: Seq<(CacheKey, CacheEntry)>, i: int)
    requires
        0 <= i < s.len(),
        forall|j: int| i < j < s.len() ==> s[j].0 != s[i].0,
    ensures
        map_of(s).contains_key(s[i].0),
        map_of(s)[s[i].0] == entry_model(s[i].1),
    decreases s.len(),
{
    if i == s.len() - 1 {
    } else {
        assert(s.drop_last()[i] == s[i]);
        lemma_map_of_index(s.drop_last(), i);
        assert(s.last().0 != s[i].0);
    }
}

proof fn lemma_map_of_update(s: Seq<(CacheKey, CacheEntry)>, i: int, e: CacheEntry)
    requires
        0 <= i < s.len(),
        forall|p: int, q: int| 0 <= p < q < s.len() ==> s[p].0 != s[q].0,
    ensures
        map_of(s.update(i, (s[i].0, e))) == map_of(s).insert(s[i].0, entry_model(e)),
    decreases s.len(),
{
    let t = s.update(i, (s[i].0, e));
    if i == s.len() - 1 {
        assert(t.drop_last() =~= s.drop_last());
        assert(map_of(t) =~= map_of(s).insert(s[i].0, entry_model(e)));
    } else {
        assert(s.drop_last()[i] == s[i]);
        lemma_map_of_update(s.drop_last(), i, e);
        assert(t.drop_last() =~= s.drop_last().update(i, (s[i].0, e)));
        assert(t.last() == s.last());
        assert(s.last().0 != s[i].0);
        assert(map_of(t) =~= map_of(s).insert(s[i].0, entry_model(e)));
    }
}

impl CacheStore {
    /// Well-formed: pairwise-distinct keys, each key owning at most one slot.
    /// Established by `new` and preserved by every method.
    pub closed spec fn wf(self) -> bool {
        forall|p: int, q: int|
            0 <= p < q < self.entries@.len() ==> self.entries@[p].0 != self.entries@[q].0
    }

    /// A store starts empty.
    pub fn new() -> (s: CacheStore)
        ensures
            s@ == Map::<CacheKey, EntryModel>::empty(),
            s.wf(),
    {
        CacheStore { entries: Vec::new() }
    }

    fn find_index(&self, key: CacheKey) -> (r: Option<usize>)
        ensures
            r matches Some(i) ==> i < self.entries@.len() && self.entries@[i as int].0 == key,
            r is None ==> forall|i: int| 0 <= i < self.entries@.len() ==> self.entries@[i].0 != key,
    {
        let n = self.entries.len();
        let mut i: usize = 0;
        while i < n
            invariant
                n == self.entries@.len(),
                i <= n,
                forall|j: int| 0 <= j < i ==> self.entries@[j].0 != key,
            decreases n - i,
        {
            if self.entries[i].0 == key {
                return Some(i);
            }
            i += 1;
        }
        None
    }

    /// The current entry for `key`, if any. Side-effect-free; freshness is
    /// not judged here.
    pub fn lookup(&self, key: CacheKey) -> (r: Option<&CacheEntry>)
        requires
            self.wf(),
        ensures
            r matches Some(e) ==> self@.contains_key(key) && self@[key] == entry_model(*e),
            r is None ==> !self@.contains_key(key),
    {
        proof {
            lemma_map_of_contains(self.entries@, key);
        }
        match self.find_index(key) {
            Some(i) => {
                proof {
                    lemma_map_of_index(self.entries@, i as int);
                }
                Some(&self.entries[i].1)
            },
            None => None,
        }
    }

    /// Unconditionally store a new entry inserted now, replacing any prior
    /// entry for the key wholesale.
    pub fn insert(&mut self, key: CacheKey, now: u64, payload: String)
        requires
            old(self).wf(),
        ensures
            final(self).wf(),
            final(self)@ == old(self)@.insert(
                key,
                EntryModel { inserted_at: now, payload: payload@ },
            ),
    {
        let entry = CacheEntry { inserted_at: now, payload };
        match self.find_index(key) {
            Some(i) => {
                proof {
                    lemma_map_of_update(self.entries@, i as int, entry);
                }
                self.entries[i] = (key, entry);
            },
            None => {
                proof {
                    let s = self.entries@.push((key, entry));
                    assert(s.drop_last() =~= self.entries@);
                    assert(map_of(s) =~= map_of(self.entries@).insert(key, entry_model(entry)));
                    lemma_map_of_contains(self.entries@, key);
                }
                self.entries.push((key, entry));
            },
        }
    }

    /// The payload for `key` if an entry is present and still fresh at `now`;
    /// stale entries are treated as absent.
    pub fn lookup_fresh(&self, key: CacheKey, now: u64) -> (r: Option<String>)
        requires
            self.wf(),
        ensures
            r is Some <==> self@.contains_key(key) && fresh_at(self@[key].inserted_at, now),
            r matches Some(p) ==> p@ == self@[key].payload,
    {
        match self.lookup(key) {
            Some(e) => {
                if is_fresh(e.inserted_at, now) {
                    Some(e.payload.clone())
                } else {
                    None
                }
            },
            None => None,
        }
    }
}

/// Freshness law: an entry looked up with the clock advanced by less than the
/// TTL is usable; advanced by the TTL or more, it counts as a miss.
pub proof fn lemma_freshness(inserted_at: u64, elapsed: u64)
    requires
        inserted_at + elapsed <= u64::MAX,
    ensures
        elapsed < TTL_SECONDS ==> fresh_at(inserted_at, (inserted_at + elapsed) as u64),
        elapsed >= TTL_SECONDS ==> !fresh_at(inserted_at, (inserted_at + elapsed) as u64),
{
}

/// Key discrimination law: the two filters never share an entry for one
/// identity — storing under one leaves the other's entry untouched.
pub proof fn lemma_key_discrimination(m: Map<CacheKey, EntryModel>, id: i64, e: EntryModel)
    ensures
        ({
            let kf = CacheKey { id, filter: Filter::Fast };
            let kq = CacheKey { id, filter: Filter::Quality };
            &&& kf != kq
            &&& m.insert(kf, e).contains_key(kq) == m.contains_key(kq)
            &&& (m.contains_key(kq) ==> m.insert(kf, e)[kq] == m[kq])
            &&& m.insert(kq, e).contains_key(kf) == m.contains_key(kf)
            &&& (m.contains_key(kf) ==> m.insert(kq, e)[kf] == m[kf])
        }),
{
}

/// Last-writer-wins law: two whole-entry writes to one key leave the store
/// exactly in the state of the later one; the key holds exactly one entry.
pub proof fn lemma_last_writer_wins(
    m: Map<CacheKey, EntryModel>,
    k: CacheKey,
    e1: EntryModel,
    e2: EntryModel,
)
    ensures
        m.insert(k, e1).insert(k, e2) == m.insert(k, e2),
        m.insert(k, e1).insert(k, e2)[k] == e2,
{
    assert(m.insert(k, e1).insert(k, e2) =~= m.insert(k, e2));
}

} // verus!
