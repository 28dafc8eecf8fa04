use vstd::prelude::*;
use ic_stable_structures::memory_manager::VirtualMemory;
use ic_stable_structures::{DefaultMemoryImpl, StableBTreeMap};
use crate::api_error::{ApiError, ApiErrorType, ApiErrorTypeView, ApiErrorView, CanisterResult, fresh_error, with_info};

verus! {

/// A stable map from keys to encoded values, over one memory region of the
/// host's persistent memory. The host layer builds it (`BTreeMap::init` over
/// a region that a memory manager hands out) and gives it to [`StableStorage`].
#[verifier::external_body]
pub struct ByteMap {
    pub map: StableBTreeMap<u64, Vec<u8>, VirtualMemory<DefaultMemoryImpl>>,
}

/// What a stable map holds: each key with the bytes stored under it.
pub uninterp spec fn stored_entries(m: ByteMap) -> Map<u64, Seq<u8>>;

/// Relies on `BTreeMap::get`: the value under the key, if any.
#[verifier::external_body]
fn map_get(m: &ByteMap, key: u64) -> (r: Option<Vec<u8>>)
    ensures
        r is Some <==> stored_entries(*m).contains_key(key),
        r matches Some(v) ==> v@ == stored_entries(*m)[key],
{
    m.map.get(&key)
}

/// Relies on `BTreeMap::contains_key`.
#[verifier::external_body]
fn map_contains(m: &ByteMap, key: u64) -> (r: bool)
    ensures
        r == stored_entries(*m).contains_key(key),
{
    m.map.contains_key(&key)
}

/// Relies on `BTreeMap::insert`: stores the value under the key, replacing
/// and returning any earlier value.
#[verifier::external_body]
fn map_insert(m: &mut ByteMap, key: u64, value: Vec<u8>) -> (r: Option<Vec<u8>>)
    ensures
        stored_entries(*final(m)) == stored_entries(*old(m)).insert(key, value@),
        r is Some <==> stored_entries(*old(m)).contains_key(key),
        r matches Some(v) ==> v@ == stored_entries(*old(m))[key],
{
    m.map.insert(key, value)
}

/// Relies on `BTreeMap::remove`: drops the key, returning its value if it was there.
#[verifier::external_body]
fn map_remove(m: &mut ByteMap, key: u64) -> (r: Option<Vec<u8>>)
    ensures
        stored_entries(*final(m)) == stored_entries(*old(m)).remove(key),
        r is Some <==> stored_entries(*old(m)).contains_key(key),
        r matches Some(v) ==> v@ == stored_entries(*old(m))[key],
{
    m.map.remove(&key)
}

/// Relies on `BTreeMap::last_key_value`: the entry with the largest key.
#[verifier::external_body]
fn map_last_key(m: &ByteMap) -> (r: Option<u64>)
    ensures
        r is None <==> stored_entries(*m).dom() == Set::<u64>::empty(),
        r matches Some(k) ==> is_max_key(stored_entries(*m), k),
{
    m.map.last_key_value().map(|e| e.0)
}

/// Relies on `BTreeMap::iter`: every entry, in ascending key order.
#[verifier::external_body]
fn map_entries(m: &ByteMap) -> (r: Vec<(u64, Vec<u8>)>)
    ensures
        lists_in_order(r@, stored_entries(*m)),
{
    m.map.iter().collect()
}

/// `k` is the largest key of `m`.
pub open spec fn is_max_key(m: Map<u64, Seq<u8>>, k: u64) -> bool {
    &&& m.contains_key(k)
    &&& forall|j: u64| m.contains_key(j) ==> j <= k
}

/// The key that the auto-increment insert allocates: one past the largest
/// key, or 1 for an empty map.
pub open spec fn next_key(m: Map<u64, Seq<u8>>) -> int {
    if m.dom() == Set::<u64>::empty() {
        1
    } else {
        (choose|k: u64| is_max_key(m, k)) + 1
    }
}

/// Keys strictly ascend along `s`.
pub open spec fn keys_ascending(s: Seq<(u64, Vec<u8>)>) -> bool {
    forall|i: int, j: int| 0 <= i < j < s.len() ==> s[i].0 < s[j].0
}

/// Each pair of `s` is an entry of `m`.
pub open spec fn drawn_from(s: Seq<(u64, Vec<u8>)>, m: Map<u64, Seq<u8>>) -> bool {
    forall|i: int| 0 <= i < s.len() ==> m.contains_key(s[i].0) && m[s[i].0] == s[i].1@
}

/// Some pair of `s` has key `k`.
pub open spec fn key_listed(s: Seq<(u64, Vec<u8>)>, k: u64) -> bool {
    exists|i: int| 0 <= i < s.len() && s[i].0 == k
}

/// `s` lists every entry of `m` once, in ascending key order.
pub open spec fn lists_in_order(s: Seq<(u64, Vec<u8>)>, m: Map<u64, Seq<u8>>) -> bool {
    &&& keys_ascending(s)
    &&& drawn_from(s, m)
    &&& forall|k: u64| m.contains_key(k) ==> key_listed(s, k)
}

/// Pairs as keys and byte sequences.
pub open spec fn pairs_view(s: Seq<(u64, Vec<u8>)>) -> Seq<(u64, Seq<u8>)> {
    s.map_values(|e: (u64, Vec<u8>)| (e.0, e.1@))
}

/// The entries of `m` for the requested keys that exist, in request order.
pub open spec fn present_entries(keys: Seq<u64>, m: Map<u64, Seq<u8>>) -> Seq<(u64, Seq<u8>)>
    decreases keys.len(),
{
    if keys.len() == 0 {
        Seq::empty()
    } else {
        let rest = present_entries(keys.drop_last(), m);
        let k = keys.last();
        if m.contains_key(k) {
            rest.push((k, m[k]))
        } else {
            rest
        }
    }
}

/// `filter` can return `answer` on key `k` and a value whose bytes are `bytes`.
pub open spec fn verdict<F: Fn(&u64, &Vec<u8>) -> bool>(filter: F, k: u64, bytes: Seq<u8>, answer: bool) -> bool {
    exists|v: Vec<u8>| v@ == bytes && #[trigger] filter.ensures((&k, &v), answer)
}

/// The error a storage operation reports: kind, message, the operation's
/// name, and the entity's name.
pub open spec fn storage_error(t: ApiErrorTypeView, message: Seq<char>, method: Seq<char>, entity: Seq<char>) -> ApiErrorView {
    ApiErrorView {
        method_name: Some(method),
        source: Some("toolkit_utils"@),
        ..with_info(with_info(fresh_error(t, message), entity), "storage"@)
    }
}

fn make_error(t: ApiErrorType, message: &str, method: &str, entity: &str) -> (r: ApiError)
    ensures
        r@ == storage_error(t@, message@, method@, entity@),
{
    ApiError::new(t, message).add_method_name(method).add_info(entity).add_info("storage").add_source("toolkit_utils")
}

fn copy_bytes(v: &Vec<u8>) -> (r: Vec<u8>)
    ensures
        r@ == v@,
{
    let r = v.clone();
    proof {
        assert(r@ =~= v@);
    }
    r
}

/// A named entity store: one stable map from keys to encoded values.
pub trait Storage {
    /// Current contents.
    spec fn entries(&self) -> Map<u64, Seq<u8>>;

    /// The entity's name, used in error context.
    spec fn entity_name(&self) -> Seq<char>;

    fn name(&self) -> (r: String)
        ensures
            r@ == self.entity_name(),
    ;
}

/// Read operations.
pub trait StorageQueryable: Storage {
    /// The entry under `key`, or a NotFound error.
    fn get(&self, key: u64) -> (r: CanisterResult<(u64, Vec<u8>)>)
        ensures
            self.entries().contains_key(key) <==> r is Ok,
            r matches Ok(e) ==> e.0 == key && e.1@ == self.entries()[key],
            r matches Err(e) ==> e@ == storage_error(ApiErrorTypeView::NotFound, Seq::empty(), "get"@, self.entity_name()),
    ;

    /// The entries for those of `keys` that exist, in the order asked.
    fn get_many(&self, keys: Vec<u64>) -> (r: Vec<(u64, Vec<u8>)>)
        ensures
            pairs_view(r@) == present_entries(keys@, self.entries()),
    ;

    /// Every entry, in key order.
    fn get_all(&self) -> (r: Vec<(u64, Vec<u8>)>)
        ensures
            lists_in_order(r@, self.entries()),
    ;

    /// The first entry, in key order, on which `filter` holds.
    fn find<F: Fn(&u64, &Vec<u8>) -> bool>(&self, filter: F) -> (r: Option<(u64, Vec<u8>)>)
        requires
            forall|k: u64, v: Vec<u8>| #[trigger] filter.requires((&k, &v)),
        ensures
            r matches Some(e) ==> {
                &&& self.entries().contains_key(e.0)
                &&& self.entries()[e.0] == e.1@
                &&& verdict(filter, e.0, e.1@, true)
            },
            forall|k: u64| #![trigger self.entries().contains_key(k)]
                self.entries().contains_key(k) && (r matches Some(e) ==> k < e.0) ==> verdict(filter, k, self.entries()[k], false),
    ;

    /// Every entry on which `filter` holds, in key order.
    fn filter<F: Fn(&u64, &Vec<u8>) -> bool>(&self, filter: F) -> (r: Vec<(u64, Vec<u8>)>)
        requires
            forall|k: u64, v: Vec<u8>| #[trigger] filter.requires((&k, &v)),
        ensures
            keys_ascending(r@),
            drawn_from(r@, self.entries()),
            forall|n: int| 0 <= n < r@.len() ==> #[trigger] verdict(filter, r@[n].0, r@[n].1@, true),
            forall|k: u64| #![trigger self.entries().contains_key(k)]
                self.entries().contains_key(k) && !key_listed(r@, k) ==> verdict(filter, k, self.entries()[k], false),
    ;
}

/// Insertion under keys that the store allocates.
pub trait StorageInsertable: Storage {
    /// Stores `value` under the next key: one past the largest, or 1 when empty.
    fn insert(&mut self, value: Vec<u8>) -> (r: CanisterResult<(u64, Vec<u8>)>)
        requires
            !old(self).entries().contains_key(u64::MAX),
        ensures
            r is Ok,
            r matches Ok(e) ==> {
                &&& e.0 == next_key(old(self).entries())
                &&& e.1@ == value@
                &&& final(self).entries() == old(self).entries().insert(e.0, value@)
            },
            final(self).entity_name() == old(self).entity_name(),
    ;
}

/// Insertion under keys that the caller gives.
pub trait StorageInsertableByKey: Storage {
    /// Stores `value` under `key` unless the key is taken (Duplicate).
    fn insert_by_key(&mut self, key: u64, value: Vec<u8>) -> (r: CanisterResult<(u64, Vec<u8>)>)
        ensures
            old(self).entries().contains_key(key) <==> r is Err,
            r matches Ok(e) ==> e.0 == key && e.1@ == value@
                && final(self).entries() == old(self).entries().insert(key, value@),
            r matches Err(e) ==> e@ == storage_error(ApiErrorTypeView::Duplicate, "Key already exists"@, "insert_by_key"@, old(self).entity_name())
                && final(self).entries() == old(self).entries(),
            final(self).entity_name() == old(self).entity_name(),
    ;

    /// Stores `value` under `key`, replacing any earlier value.
    fn upsert_by_key(&mut self, key: u64, value: Vec<u8>) -> (r: (u64, Vec<u8>))
        ensures
            r.0 == key,
            r.1@ == value@,
            final(self).entries() == old(self).entries().insert(key, value@),
            final(self).entity_name() == old(self).entity_name(),
    ;
}

/// Changes to existing entries.
pub trait StorageUpdateable: Storage {
    /// Replaces the value under an existing `key`; NotFound otherwise.
    fn update(&mut self, key: u64, value: Vec<u8>) -> (r: CanisterResult<(u64, Vec<u8>)>)
        ensures
            old(self).entries().contains_key(key) <==> r is Ok,
            r matches Ok(e) ==> e.0 == key && e.1@ == value@
                && final(self).entries() == old(self).entries().insert(key, value@),
            r matches Err(e) ==> e@ == storage_error(ApiErrorTypeView::NotFound, "Key does not exist"@, "update"@, old(self).entity_name())
                && final(self).entries() == old(self).entries(),
            final(self).entity_name() == old(self).entity_name(),
    ;

    /// Drops `key`; true when it was there.
    fn remove(&mut self, key: u64) -> (r: bool)
        ensures
            r == old(self).entries().contains_key(key),
            final(self).entries() == old(self).entries().remove(key),
            final(self).entity_name() == old(self).entity_name(),
    ;

    /// Drops each of `keys` that is there.
    fn remove_many(&mut self, keys: Vec<u64>)
        ensures
            final(self).entries() == old(self).entries().remove_keys(keys@.to_set()),
            final(self).entity_name() == old(self).entity_name(),
    ;
}

/// An entity store over one stable map.
pub struct StableStorage {
    name: String,
    data: ByteMap,
}

impl StableStorage {
    /// A store named `name` over a map that may already hold entries (as
    /// after an upgrade).
    pub fn from_map(name: &str, data: ByteMap) -> (r: Self)
        ensures
            r.entries() == stored_entries(data),
            r.entity_name() == name@,
    {
        StableStorage { name: String::from_str(name), data }
    }
}

impl Storage for StableStorage {
    closed spec fn entries(&self) -> Map<u64, Seq<u8>> {
        stored_entries(self.data)
    }

    closed spec fn entity_name(&self) -> Seq<char> {
        self.name@
    }

    fn name(&self) -> (r: String) {
        self.name.clone()
    }
}

impl StorageQueryable for StableStorage {
    fn get(&self, key: u64) -> (r: CanisterResult<(u64, Vec<u8>)>) {
        match map_get(&self.data, key) {
            Some(value) => Ok((key, value)),
            None => {
                let e = make_error(ApiErrorType::NotFound, "", "get", self.name.as_str());
                proof {
                    reveal_strlit("");
                    assert(""@ =~= Seq::<char>::empty());
                }
                Err(e)
            },
        }
    }

    fn get_many(&self, keys: Vec<u64>) -> (r: Vec<(u64, Vec<u8>)>) {
        let mut out: Vec<(u64, Vec<u8>)> = Vec::new();
        let mut i: usize = 0;
        while i < keys.len()
            invariant
                i <= keys@.len(),
                pairs_view(out@) == present_entries(keys@.subrange(0, i as int), self.entries()),
            decreases keys@.len() - i,
        {
            let key = keys[i];
            let found = map_get(&self.data, key);
            proof {
                let pre = keys@.subrange(0, i as int + 1);
                assert(pre.drop_last() =~= keys@.subrange(0, i as int));
                assert(pre.last() == key);
            }
            match found {
                Some(value) => {
                    out.push((key, value));
                    proof {
                        assert(pairs_view(out@) =~= present_entries(keys@.subrange(0, i as int + 1), self.entries()));
                    }
                },
                None => {},
            }
            i = i + 1;
        }
        proof {
            assert(keys@.subrange(0, keys@.len() as int) =~= keys@);
        }
        out
    }

    fn get_all(&self) -> (r: Vec<(u64, Vec<u8>)>) {
        map_entries(&self.data)
    }

    fn find<F: Fn(&u64, &Vec<u8>) -> bool>(&self, filter: F) -> (r: Option<(u64, Vec<u8>)>) {
        let all = map_entries(&self.data);
        let ghost m = self.entries();
        let mut i: usize = 0;
        while i < all.len()
            invariant
                i <= all@.len(),
                lists_in_order(all@, m),
                m == self.entries(),
                forall|k: u64, v: Vec<u8>| #[trigger] filter.requires((&k, &v)),
                forall|j: int| 0 <= j < i ==> #[trigger] filter.ensures((&all@[j].0, &all@[j].1), false),
            decreases all@.len() - i,
        {
            let hit = filter(&all[i].0, &all[i].1);
            if hit {
                let k = all[i].0;
                let v = copy_bytes(&all[i].1);
                proof {
                    assert forall|k2: u64| #![trigger m.contains_key(k2)]
                        m.contains_key(k2) && k2 < k implies verdict(filter, k2, m[k2], false)
                    by {
                        assert(key_listed(all@, k2));
                        let j = choose|j: int| 0 <= j < all@.len() && all@[j].0 == k2;
                        assert(j < i);
                        assert(filter.ensures((&all@[j].0, &all@[j].1), false));
                    }
                    assert(v@ == all@[i as int].1@);
                    assert(filter.ensures((&all@[i as int].0, &all@[i as int].1), true));
                    assert(verdict(filter, k, v@, true));
                }
                return Some((k, v));
            }
            i = i + 1;
        }
        proof {
            assert forall|k2: u64| #![trigger m.contains_key(k2)]
                m.contains_key(k2) implies verdict(filter, k2, m[k2], false)
            by {
                assert(key_listed(all@, k2));
                let j = choose|j: int| 0 <= j < all@.len() && all@[j].0 == k2;
                assert(filter.ensures((&all@[j].0, &all@[j].1), false));
            }
        }
        None
    }

    fn filter<F: Fn(&u64, &Vec<u8>) -> bool>(&self, filter: F) -> (r: Vec<(u64, Vec<u8>)>) {
        let all = map_entries(&self.data);
        let ghost m = self.entries();
        let mut out: Vec<(u64, Vec<u8>)> = Vec::new();
        let ghost mut picked: Seq<int> = Seq::empty();
        let mut i: usize = 0;
        while i < all.len()
            invariant
                i <= all@.len(),
                lists_in_order(all@, m),
                m == self.entries(),
                forall|k: u64, v: Vec<u8>| #[trigger] filter.requires((&k, &v)),
                picked.len() == out@.len(),
                forall|j: int| 0 <= j < picked.len() ==> 0 <= #[trigger] picked[j] < i,
                forall|a: int, b: int| 0 <= a < b < picked.len() ==> picked[a] < picked[b],
                forall|j: int| #![trigger out@[j]] 0 <= j < out@.len() ==> {
                    &&& out@[j].0 == all@[picked[j]].0
                    &&& out@[j].1@ == all@[picked[j]].1@
                    &&& filter.ensures((&all@[picked[j]].0, &all@[picked[j]].1), true)
                },
                forall|t: int| 0 <= t < i && !key_listed(out@, all@[t].0) ==> #[trigger] filter.ensures((&all@[t].0, &all@[t].1), false),
            decreases all@.len() - i,
        {
            let hit = filter(&all[i].0, &all[i].1);
            if hit {
                let k = all[i].0;
                let v = copy_bytes(&all[i].1);
                let ghost before = out@;
                out.push((k, v));
                proof {
                    picked = picked.push(i as int);
                    assert forall|j: int| #![trigger out@[j]] 0 <= j < out@.len() implies {
                        &&& out@[j].0 == all@[picked[j]].0
                        &&& out@[j].1@ == all@[picked[j]].1@
                        &&& filter.ensures((&all@[picked[j]].0, &all@[picked[j]].1), true)
                    } by {
                        if j < before.len() {
                            assert(out@[j] == before[j]);
                        }
                    }
                    assert forall|t: int| 0 <= t < i + 1 && !key_listed(out@, all@[t].0) implies #[trigger] filter.ensures((&all@[t].0, &all@[t].1), false) by {
                        if t < i {
                            if key_listed(before, all@[t].0) {
                                let j = choose|j: int| 0 <= j < before.len() && before[j].0 == all@[t].0;
                                assert(out@[j] == before[j]);
                            }
                        } else {
                            assert(out@[out@.len() - 1].0 == all@[t].0);
                        }
                    }
                }
            }
            i = i + 1;
        }
        proof {
            assert forall|a: int, b: int| 0 <= a < b < out@.len() implies out@[a].0 < out@[b].0 by {
                assert(out@[a].0 == all@[picked[a]].0);
                assert(out@[b].0 == all@[picked[b]].0);
            }
            assert forall|j: int| 0 <= j < out@.len() implies m.contains_key(out@[j].0) && m[out@[j].0] == out@[j].1@ by {
                assert(out@[j].0 == all@[picked[j]].0);
            }
            assert forall|j: int| 0 <= j < out@.len() implies #[trigger] verdict(filter, out@[j].0, out@[j].1@, true) by {
                let w = all@[picked[j]].1;
                assert(w@ == out@[j].1@);
                assert(filter.ensures((&out@[j].0, &w), true));
            }
            assert forall|k2: u64| #![trigger m.contains_key(k2)]
                m.contains_key(k2) && !key_listed(out@, k2) implies verdict(filter, k2, m[k2], false)
            by {
                assert(key_listed(all@, k2));
                let t = choose|t: int| 0 <= t < all@.len() && all@[t].0 == k2;
                assert(filter.ensures((&all@[t].0, &all@[t].1), false));
            }
        }
        out
    }
}

impl StorageInsertable for StableStorage {
    fn insert(&mut self, value: Vec<u8>) -> (r: CanisterResult<(u64, Vec<u8>)>) {
        let key: u64 = match map_last_key(&self.data) {
            Some(k) => {
                proof {
                    let m = stored_entries(self.data);
                    let c = choose|c: u64| is_max_key(m, c);
                    assert(m.contains_key(k));
                    assert(is_max_key(m, c));
                    assert(c == k);
                }
                k + 1
            },
            None => 1,
        };
        if map_contains(&self.data, key) {
            return Err(make_error(ApiErrorType::Duplicate, "Key already exists", "insert", self.name.as_str()));
        }
        let stored = copy_bytes(&value);
        map_insert(&mut self.data, key, stored);
        Ok((key, value))
    }
}

impl StorageInsertableByKey for StableStorage {
    fn insert_by_key(&mut self, key: u64, value: Vec<u8>) -> (r: CanisterResult<(u64, Vec<u8>)>) {
        if map_contains(&self.data, key) {
            return Err(make_error(ApiErrorType::Duplicate, "Key already exists", "insert_by_key", self.name.as_str()));
        }
        let stored = copy_bytes(&value);
        map_insert(&mut self.data, key, stored);
        Ok((key, value))
    }

    fn upsert_by_key(&mut self, key: u64, value: Vec<u8>) -> (r: (u64, Vec<u8>)) {
        let stored = copy_bytes(&value);
        map_insert(&mut self.data, key, stored);
        (key, value)
    }
}

impl StorageUpdateable for StableStorage {
    fn update(&mut self, key: u64, value: Vec<u8>) -> (r: CanisterResult<(u64, Vec<u8>)>) {
        if !map_contains(&self.data, key) {
            return Err(make_error(ApiErrorType::NotFound, "Key does not exist", "update", self.name.as_str()));
        }
        let stored = copy_bytes(&value);
        map_insert(&mut self.data, key, stored);
        Ok((key, value))
    }

    fn remove(&mut self, key: u64) -> (r: bool) {
        let removed = map_remove(&mut self.data, key);
        removed.is_some()
    }

    fn remove_many(&mut self, keys: Vec<u64>) {
        let ghost start = self.entries();
        let mut i: usize = 0;
        while i < keys.len()
            invariant
                i <= keys@.len(),
                self.entries() == start.remove_keys(keys@.subrange(0, i as int).to_set()),
                self.entity_name() == old(self).entity_name(),
                start == old(self).entries(),
            decreases keys@.len() - i,
        {
            let ghost before = self.entries();
            map_remove(&mut self.data, keys[i]);
            proof {
                let s0 = keys@.subrange(0, i as int).to_set();
                let s1 = keys@.subrange(0, i as int + 1).to_set();
                assert(keys@.subrange(0, i as int + 1) =~= keys@.subrange(0, i as int).push(keys@[i as int]));
                keys@.subrange(0, i as int).lemma_push_to_set_commute(keys@[i as int]);
                assert(self.entries() =~= start.remove_keys(s1));
            }
            i = i + 1;
        }
        proof {
            assert(keys@.subrange(0, keys@.len() as int) =~= keys@);
        }
    }
}

/// The key after the largest key `k` is `k + 1`.
pub proof fn lemma_next_key_after_max(m: Map<u64, Seq<u8>>, k: u64)
    requires
        is_max_key(m, k),
    ensures
        next_key(m) == k + 1,
{
    assert(m.dom().contains(k));
    let c = choose|c: u64| is_max_key(m, c);
    assert(is_max_key(m, c));
}

/// An auto-increment insert followed by a read of the key it returned gives
/// back the inserted value: the key is present afterwards, with those bytes.
pub proof fn lemma_insert_then_get(m: Map<u64, Seq<u8>>, value: Seq<u8>)
    ensures
        m.insert(next_key(m) as u64, value).contains_key(next_key(m) as u64),
        m.insert(next_key(m) as u64, value)[next_key(m) as u64] == value,
{
}

/// A second `insert_by_key` on the same key meets a present key (so it
/// fails with Duplicate and changes nothing), and the first value stays.
pub proof fn lemma_insert_by_key_twice(m: Map<u64, Seq<u8>>, k: u64, v: Seq<u8>)
    requires
        !m.contains_key(k),
    ensures
        m.insert(k, v).contains_key(k),
        m.insert(k, v)[k] == v,
{
}

/// Two upserts on one key leave the second value, as if only it were stored.
pub proof fn lemma_upsert_twice(m: Map<u64, Seq<u8>>, k: u64, v: Seq<u8>, v2: Seq<u8>)
    ensures
        m.insert(k, v).insert(k, v2) == m.insert(k, v2),
        m.insert(k, v).insert(k, v2)[k] == v2,
{
    assert(m.insert(k, v).insert(k, v2) =~= m.insert(k, v2));
}

/// The contents after storing `values` one by one with auto-increment keys.
pub open spec fn after_inserts(m: Map<u64, Seq<u8>>, values: Seq<Seq<u8>>) -> Map<u64, Seq<u8>>
    decreases values.len(),
{
    if values.len() == 0 {
        m
    } else {
        let before = after_inserts(m, values.drop_last());
        before.insert(next_key(before) as u64, values.last())
    }
}

/// The keys `1..=n`.
pub open spec fn first_keys(n: int) -> Set<u64> {
    Set::new(|j: u64| 1 <= j <= n)
}

/// Starting from an empty store, the n-th auto-increment insert gets key n,
/// whatever the values: after N inserts the keys are exactly `1..=N` and
/// key i holds the i-th value.
pub proof fn lemma_sequential_keys(values: Seq<Seq<u8>>)
    requires
        values.len() < u64::MAX,
    ensures
        after_inserts(Map::empty(), values).dom() == first_keys(values.len() as int),
        forall|i: int| 0 <= i < values.len() ==> #[trigger] after_inserts(Map::empty(), values)[(i + 1) as u64] == values[i],
    decreases values.len(),
{
    let m = after_inserts(Map::<u64, Seq<u8>>::empty(), values);
    if values.len() == 0 {
        assert(m.dom() =~= first_keys(0));
    } else {
        let n = values.len() - 1;
        let init = values.drop_last();
        lemma_sequential_keys(init);
        let before = after_inserts(Map::<u64, Seq<u8>>::empty(), init);
        if n == 0 {
            assert(before.dom() =~= Set::<u64>::empty());
        } else {
            assert(before.dom().contains(n as u64));
            lemma_next_key_after_max(before, n as u64);
        }
        assert(next_key(before) == n + 1);
        assert(m == before.insert((n + 1) as u64, values.last()));
        assert(m.dom() =~= first_keys(values.len() as int));
        assert forall|i: int| 0 <= i < values.len() implies #[trigger] m[(i + 1) as u64] == values[i] by {
            if i < n {
                assert(init[i] == values[i]);
                assert(before[(i + 1) as u64] == init[i]);
            }
        }
    }
}

/// Removing a key that a later insert has passed does not make the next
/// auto-increment insert take it again: the next key is above it. (When the
/// removed key is the largest one, the next insert does take it again.)
pub proof fn lemma_removed_key_not_reused(m: Map<u64, Seq<u8>>, k: u64, later: u64)
    requires
        m.contains_key(k),
        m.contains_key(later),
        k < later,
    ensures
        !m.remove(k).contains_key(k),
        next_key(m.remove(k)) > k,
{
    let r = m.remove(k);
    assert(r.contains_key(later));
    assert(r.dom() != Set::<u64>::empty());
    if next_key(r) <= k {
        let c = choose|c: u64| is_max_key(r, c);
        assert(exists|c: u64| is_max_key(r, c)) by {
            lemma_max_exists(r, later);
        }
        assert(is_max_key(r, c));
        assert(later <= c);
    }
}

/// A map with a key has a largest key.
pub proof fn lemma_max_exists(m: Map<u64, Seq<u8>>, k: u64)
    requires
        m.contains_key(k),
    ensures
        exists|c: u64| is_max_key(m, c),
    decreases u64::MAX - k,
{
    if !is_max_key(m, k) {
        let j = choose|j: u64| m.contains_key(j) && !(j <= k);
        lemma_max_exists(m, j);
    }
}

} // verus!
