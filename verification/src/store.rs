//! In-memory model of the cache store: get and set-with-expiry over keyed
//! entries. At most one live entry exists per key, and an entry is only
//! ever replaced wholesale or left to expire — never partially updated.

use vstd::prelude::*;

use crate::bytes::copy_bytes;

verus! {

/// One stored entry: its key, its payload, and the instant it expires.
pub struct CacheEntry {
    pub key: String,
    pub payload: Vec<u8>,
    pub expires_at: u64,
}

/// Abstract entry: a payload and the instant it stops being servable.
pub struct EntryModel {
    pub payload: Seq<u8>,
    pub expires_at: int,
}

/// The abstract value of one stored entry.
pub open spec fn entry_model(e: CacheEntry) -> EntryModel {
    EntryModel { payload: e.payload@, expires_at: e.expires_at as int }
}

/// No two entries share a key.
pub open spec fn unique_keys(s: Seq<CacheEntry>) -> bool {
    forall|i: int, j: int| 0 <= i < j < s.len() ==> s[i].key@ != s[j].key@
}

/// The contents of a sequence of entries as a map from key to entry.
pub open spec fn contents(s: Seq<CacheEntry>) -> Map<Seq<char>, EntryModel>
    decreases s.len(),
{
    if s.len() == 0 {
        Map::empty()
    } else {
        contents(s.drop_last()).insert(s.last().key@, entry_model(s.last()))
    }
}

/// What a get at instant `now` answers out of contents `m`: the payload at
/// the key if it is present and unexpired, nothing otherwise.
pub open spec fn spec_get(m: Map<Seq<char>, EntryModel>, k: Seq<char>, now: int) -> Option<
    Seq<u8>,
> {
    if m.contains_key(k) && now < m[k].expires_at {
        Some(m[k].payload)
    } else {
        None
    }
}

/// The bytes of an optional buffer, for contracts over get results.
pub open spec fn opt_bytes_view(o: Option<Vec<u8>>) -> Option<Seq<u8>> {
    match o {
        Some(p) => Some(p@),
        None => None,
    }
}

proof fn lemma_contents_domain(s: Seq<CacheEntry>, k: Seq<char>)
    ensures
        contents(s).contains_key(k) <==> (exists|i: int| 0 <= i < s.len() && s[i].key@ == k),
    decreases s.len(),
{
    if s.len() > 0 {
        lemma_contents_domain(s.drop_last(), k);
        if s.last().key@ == k {
            assert(s[s.len() - 1].key@ == k);
        } else {
            if exists|i: int| 0 <= i < s.len() && s[i].key@ == k {
                let i = choose|i: int| 0 <= i < s.len() && s[i].key@ == k;
                assert(s.drop_last()[i].key@ == k);
            }
            if exists|i: int| 0 <= i < s.drop_last().len() && s.drop_last()[i].key@ == k {
                let i = choose|i: int| 0 <= i < s.drop_last().len() && s.drop_last()[i].key@ == k;
                assert(s[i].key@ == k);
            }
        }
    }
}

proof fn lemma_contents_value(s: Seq<CacheEntry>, i: int)
    requires
        unique_keys(s),
        0 <= i < s.len(),
    ensures
        contents(s).contains_key(s[i].key@),
        contents(s)[s[i].key@] == entry_model(s[i]),
    decreases s.len(),
{
    if i < s.len() - 1 {
        assert(unique_keys(s.drop_last())) by {
            assert(forall|a: int, b: int| #![auto]
                0 <= a < b < s.drop_last().len() ==> s.drop_last()[a].key@
                    != s.drop_last()[b].key@);
        }
        lemma_contents_value(s.drop_last(), i);
        assert(s.last().key@ != s[i].key@);
    }
}

proof fn lemma_contents_update(s: Seq<CacheEntry>, i: int, e: CacheEntry)
    requires
        unique_keys(s),
        0 <= i < s.len(),
        e.key@ == s[i].key@,
    ensures
        contents(s.update(i, e)) == contents(s).insert(e.key@, entry_model(e)),
    decreases s.len(),
{
    let t = s.update(i, e);
    if i == s.len() - 1 {
        assert(t.drop_last() =~= s.drop_last());
        assert(t.last() == e);
        assert(contents(s.drop_last()).insert(s.last().key@, entry_model(s.last())).insert(
            e.key@,
            entry_model(e),
        ) =~= contents(s.drop_last()).insert(e.key@, entry_model(e)));
    } else {
        assert(unique_keys(s.drop_last())) by {
            assert(forall|a: int, b: int| #![auto]
                0 <= a < b < s.drop_last().len() ==> s.drop_last()[a].key@
                    != s.drop_last()[b].key@);
        }
        assert(t.drop_last() =~= s.drop_last().update(i, e));
        assert(t.last() == s.last());
        lemma_contents_update(s.drop_last(), i, e);
        assert(s.last().key@ != e.key@);
        assert(contents(s.drop_last()).insert(e.key@, entry_model(e)).insert(
            s.last().key@,
            entry_model(s.last()),
        ) =~= contents(s.drop_last()).insert(s.last().key@, entry_model(s.last())).insert(
            e.key@,
            entry_model(e),
        ));
    }
}

proof fn lemma_contents_push(s: Seq<CacheEntry>, e: CacheEntry)
    ensures
        contents(s.push(e)) == contents(s).insert(e.key@, entry_model(e)),
{
    assert(s.push(e).drop_last() =~= s);
    assert(s.push(e).last() == e);
}

/// Key/value store with time-based expiry, the shape of the cache store the
/// interceptor writes through to.
pub struct StoreModel {
    entries: Vec<CacheEntry>,
}

impl View for StoreModel {
    type V = Map<Seq<char>, EntryModel>;

    closed spec fn view(&self) -> Map<Seq<char>, EntryModel> {
        contents(self.entries@)
    }
}

impl StoreModel {
    /// At most one entry per key.
    pub closed spec fn well_formed(&self) -> bool {
        unique_keys(self.entries@)
    }

    /// An empty store.
    pub fn new() -> (s: StoreModel)
        ensures
            s.well_formed(),
            s@ == Map::<Seq<char>, EntryModel>::empty(),
    {
        StoreModel { entries: Vec::new() }
    }

    /// Read a key at instant `now`: its payload if present and unexpired.
    pub fn get(&self, key: &String, now: u64) -> (r: Option<Vec<u8>>)
        requires
            self.well_formed(),
        ensures
            opt_bytes_view(r) == spec_get(self@, key@, now as int),
    {
        let ghost s = self.entries@;
        let mut i: usize = 0;
        while i < self.entries.len()
            invariant
                i <= s.len(),
                s == self.entries@,
                unique_keys(s),
                forall|j: int| 0 <= j < i ==> s[j].key@ != key@,
            decreases s.len() - i,
        {
            if self.entries[i].key == *key {
                proof {
                    lemma_contents_value(s, i as int);
                }
                if now < self.entries[i].expires_at {
                    return Some(copy_bytes(&self.entries[i].payload));
                } else {
                    return None;
                }
            }
            i = i + 1;
        }
        proof {
            lemma_contents_domain(s, key@);
        }
        None
    }

    /// Replace the entry at a key wholesale, or create it: after the call
    /// the key holds exactly this payload until `expires_at`.
    pub fn set(&mut self, key: String, payload: Vec<u8>, expires_at: u64)
        requires
            old(self).well_formed(),
        ensures
            final(self).well_formed(),
            final(self)@ == old(self)@.insert(
                key@,
                (EntryModel { payload: payload@, expires_at: expires_at as int }),
            ),
    {
        let ghost s0 = self.entries@;
        let mut i: usize = 0;
        while i < self.entries.len()
            invariant
                i <= s0.len(),
                s0 == self.entries@,
                s0 == old(self).entries@,
                unique_keys(s0),
                forall|j: int| 0 <= j < i ==> s0[j].key@ != key@,
            decreases s0.len() - i,
        {
            if self.entries[i].key == key {
                let e = CacheEntry { key, payload, expires_at };
                proof {
                    lemma_contents_update(s0, i as int, e);
                    assert(unique_keys(s0.update(i as int, e))) by {
                        assert(forall|a: int|
                            0 <= a < s0.len() ==> s0.update(i as int, e)[a].key@ == s0[a].key@);
                    }
                }
                self.entries.set(i, e);
                return ;
            }
            i = i + 1;
        }
        let e = CacheEntry { key, payload, expires_at };
        proof {
            lemma_contents_push(s0, e);
            assert(unique_keys(s0.push(e))) by {
                assert(forall|a: int| 0 <= a < s0.len() ==> s0.push(e)[a] == s0[a]);
                assert(s0.push(e)[s0.len() as int] == e);
            }
        }
        self.entries.push(e);
    }
}

} // verus!
