//! Lists of order ids, kept per party.
//!
//! A list is a vector of the Soroban SDK, so that it goes to the ledger and to
//! callers as it is.
use soroban_sdk::Env as SdkEnv;
use soroban_sdk::Vec as SdkVec;
use vstd::prelude::*;

use crate::types::DataKey;

verus! {

/// The SDK's handle to the host, which the SDK needs to make a vector.
#[verifier::external_type_specification]
#[verifier::external_body]
pub struct ExSdkEnv(soroban_sdk::Env);

/// The SDK's vector.
#[verifier::external_type_specification]
#[verifier::external_body]
#[verifier::reject_recursive_types(T)]
pub struct ExSdkVec<T>(soroban_sdk::Vec<T>);

/// The ids that an SDK vector holds, first to last.
pub uninterp spec fn ids_in(ids: SdkVec<u64>) -> Seq<u64>;

/// Calls `soroban_sdk::Vec::new`, and claims that the new vector is empty.
#[verifier::external_body]
pub(crate) fn new_ids(host: &SdkEnv) -> (ids: SdkVec<u64>)
    ensures
        ids_in(ids) == Seq::<u64>::empty(),
{
    SdkVec::new(host)
}

/// Calls `soroban_sdk::Vec::push_back`, and claims that the vector then holds
/// what it held, followed by `id`. The host refuses to grow a vector past
/// `u32::MAX` items.
#[verifier::external_body]
pub(crate) fn push_id(ids: &mut SdkVec<u64>, id: u64)
    requires
        ids_in(*old(ids)).len() < u32::MAX,
    ensures
        ids_in(*final(ids)) == ids_in(*old(ids)).push(id),
{
    ids.push_back(id);
}

/// Calls `soroban_sdk::Vec::len`, and claims that the result is the number of
/// ids.
#[verifier::external_body]
pub(crate) fn count_ids(ids: &SdkVec<u64>) -> (count: u32)
    ensures
        count as nat == ids_in(*ids).len(),
{
    ids.len()
}

/// Calls `clone` of `soroban_sdk::Vec`, and claims that the copy holds the same
/// ids.
#[verifier::external_body]
pub(crate) fn copy_ids(ids: &SdkVec<u64>) -> (copy: SdkVec<u64>)
    ensures
        ids_in(copy) == ids_in(*ids),
{
    ids.clone()
}

/// One stored list.
pub struct IndexEntry {
    pub key: DataKey,
    pub ids: SdkVec<u64>,
}

/// The stored lists, by key.
pub struct IdIndex {
    entries: Vec<IndexEntry>,
}

/// The list of the first entry with key `key`.
spec fn find(entries: Seq<IndexEntry>, key: DataKey) -> Option<Seq<u64>>
    decreases entries.len(),
{
    if entries.len() == 0 {
        None
    } else if entries[0].key == key {
        Some(ids_in(entries[0].ids))
    } else {
        find(entries.drop_first(), key)
    }
}

/// Where the first entry with `key` stands at `i`, it decides.
proof fn lemma_find_at(entries: Seq<IndexEntry>, key: DataKey, i: int)
    requires
        0 <= i < entries.len(),
        entries[i].key == key,
        forall|j: int| 0 <= j < i ==> (#[trigger] entries[j]).key != key,
    ensures
        find(entries, key) == Some(ids_in(entries[i].ids)),
    decreases entries.len(),
{
    if i > 0 {
        let rest = entries.drop_first();
        assert forall|j: int| 0 <= j < i - 1 implies (#[trigger] rest[j]).key != key by {
            assert(rest[j] == entries[j + 1]);
        }
        lemma_find_at(rest, key, i - 1);
    }
}

/// Where no entry has `key`, nothing is found.
proof fn lemma_find_none(entries: Seq<IndexEntry>, key: DataKey)
    requires
        forall|j: int| 0 <= j < entries.len() ==> (#[trigger] entries[j]).key != key,
    ensures
        find(entries, key) is None,
    decreases entries.len(),
{
    if entries.len() > 0 {
        let rest = entries.drop_first();
        assert forall|j: int| 0 <= j < rest.len() implies (#[trigger] rest[j]).key != key by {
            assert(rest[j] == entries[j + 1]);
        }
        lemma_find_none(rest, key);
    }
}

/// Replacing an entry by one with the same key does not affect other keys.
proof fn lemma_find_update(entries: Seq<IndexEntry>, i: int, e: IndexEntry, key: DataKey)
    requires
        0 <= i < entries.len(),
        entries[i].key == e.key,
        e.key != key,
    ensures
        find(entries.update(i, e), key) == find(entries, key),
    decreases entries.len(),
{
    let rest = entries.drop_first();
    if i == 0 {
        assert(entries.update(i, e).drop_first() =~= rest);
    } else {
        assert(entries.update(i, e).drop_first() =~= rest.update(i - 1, e));
        lemma_find_update(rest, i - 1, e, key);
    }
}

/// An entry at the end decides for its key where no other does, and for no
/// other key.
proof fn lemma_find_push(entries: Seq<IndexEntry>, e: IndexEntry, key: DataKey)
    ensures
        find(entries.push(e), key) == (if find(entries, key) is Some || e.key != key {
            find(entries, key)
        } else {
            Some(ids_in(e.ids))
        }),
    decreases entries.len(),
{
    if entries.len() == 0 {
        assert(entries.push(e).drop_first() =~= entries);
    } else {
        assert(entries.push(e).drop_first() =~= entries.drop_first().push(e));
        lemma_find_push(entries.drop_first(), e, key);
    }
}

impl View for IdIndex {
    type V = Map<DataKey, Seq<u64>>;

    closed spec fn view(&self) -> Map<DataKey, Seq<u64>> {
        Map::new(
            |key: DataKey| find(self.entries@, key) is Some,
            |key: DataKey| find(self.entries@, key)->0,
        )
    }
}

impl IdIndex {
    /// No list.
    pub fn new() -> (index: IdIndex)
        ensures
            index@ == Map::<DataKey, Seq<u64>>::empty(),
    {
        let index = IdIndex { entries: Vec::new() };
        assert(index@ =~= Map::<DataKey, Seq<u64>>::empty());
        index
    }

    /// The position of the first entry with `key`, or the number of entries.
    fn position(&self, key: &DataKey) -> (at: usize)
        ensures
            at <= self.entries.len(),
            at < self.entries.len() ==> self.entries[at as int].key == *key,
            forall|j: int| 0 <= j < at ==> (#[trigger] self.entries[j]).key != *key,
    {
        let mut at: usize = 0;
        while at < self.entries.len()
            invariant
                at <= self.entries.len(),
                forall|j: int| 0 <= j < at ==> (#[trigger] self.entries[j]).key != *key,
            decreases self.entries.len() - at,
        {
            if self.entries[at].key == *key {
                return at;
            }
            at = at + 1;
        }
        at
    }

    /// A copy of the list under `key`.
    pub fn get(&self, key: &DataKey) -> (ids: Option<SdkVec<u64>>)
        ensures
            match ids {
                Some(ids) => self@.contains_key(*key) && ids_in(ids) == self@[*key],
                None => !self@.contains_key(*key),
            },
    {
        let at: usize = self.position(key);
        if at < self.entries.len() {
            proof {
                lemma_find_at(self.entries@, *key, at as int);
            }
            Some(copy_ids(&self.entries[at].ids))
        } else {
            proof {
                lemma_find_none(self.entries@, *key);
            }
            None
        }
    }

    /// Stores `ids` under `key`.
    pub fn put(&mut self, key: DataKey, ids: SdkVec<u64>)
        ensures
            final(self)@ == old(self)@.insert(key, ids_in(ids)),
    {
        let ghost before = self.entries@;
        let at: usize = self.position(&key);
        let entry = IndexEntry { key, ids };
        let ghost added = entry;
        if at < self.entries.len() {
            self.entries.set(at, entry);
            proof {
                lemma_find_at(self.entries@, key, at as int);
                assert forall|k: DataKey| k != key implies #[trigger] find(self.entries@, k)
                    == find(before, k) by {
                    lemma_find_update(before, at as int, added, k);
                }
            }
        } else {
            self.entries.push(entry);
            proof {
                lemma_find_none(before, key);
                assert forall|k: DataKey| #[trigger] find(self.entries@, k) == (if k == key {
                    Some(ids_in(ids))
                } else {
                    find(before, k)
                }) by {
                    lemma_find_push(before, added, k);
                }
            }
        }
        assert(self@ =~= old(self)@.insert(key, ids_in(ids)));
    }
}

} // verus!
