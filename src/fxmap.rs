use rustc_hash::FxHashMap;
use std::hash::Hash;
use vstd::prelude::*;
use vstd::std_specs::hash::obeys_key_model;

verus! {

#[verifier::external_type_specification]
#[verifier::external_body]
pub struct ExFxBuildHasher(rustc_hash::FxBuildHasher);

/// Relies on `Default` for rustc_hash's `FxHashMap`: a new map is empty.
#[verifier::external_body]
pub(crate) fn fx_new<K, V>() -> (r: FxHashMap<K, V>)
    ensures
        forall|k: K| !#[trigger] r@.contains_key(k),
{
    FxHashMap::default()
}

/// Relies on `HashMap::insert` under rustc_hash's deterministic hasher: the
/// map behaves as a finite map, and the displaced value is returned.
#[verifier::external_body]
pub(crate) fn fx_insert<K: Eq + Hash, V>(m: &mut FxHashMap<K, V>, k: K, v: V) -> (r: Option<V>)
    requires
        obeys_key_model::<K>(),
    ensures
        final(m)@ == old(m)@.insert(k, v),
        r == (if old(m)@.contains_key(k) {
            Some(old(m)@[k])
        } else {
            None
        }),
{
    m.insert(k, v)
}

/// Relies on `HashMap::get` under rustc_hash's deterministic hasher.
#[verifier::external_body]
pub(crate) fn fx_get<'a, K: Eq + Hash, V>(m: &'a FxHashMap<K, V>, k: &K) -> (r: Option<&'a V>)
    requires
        obeys_key_model::<K>(),
    ensures
        r == (if m@.contains_key(*k) {
            Some(&m@[*k])
        } else {
            None
        }),
{
    m.get(k)
}

/// Relies on `HashMap::get_mut` under rustc_hash's deterministic hasher.
#[verifier::external_body]
pub(crate) fn fx_get_mut<'a, K: Eq + Hash, V>(m: &'a mut FxHashMap<K, V>, k: &K) -> (r: Option<
    &'a mut V,
>)
    requires
        obeys_key_model::<K>(),
    ensures
        old(m)@.contains_key(*k) <==> r is Some,
        r is Some ==> *r->0 == old(m)@[*k] && final(m)@ == old(m)@.insert(*k, *final(r->0)),
        r is None ==> final(m)@ == old(m)@,
{
    m.get_mut(k)
}

/// Relies on `HashMap::remove` under rustc_hash's deterministic hasher.
#[verifier::external_body]
pub(crate) fn fx_remove<K: Eq + Hash, V>(m: &mut FxHashMap<K, V>, k: &K) -> (r: Option<V>)
    requires
        obeys_key_model::<K>(),
    ensures
        final(m)@ == old(m)@.remove(*k),
        r == (if old(m)@.contains_key(*k) {
            Some(old(m)@[*k])
        } else {
            None
        }),
{
    m.remove(k)
}

/// Relies on `HashMap::is_empty`: true exactly when the map holds no key.
#[verifier::external_body]
pub(crate) fn fx_is_empty<K, V>(m: &FxHashMap<K, V>) -> (r: bool)
    ensures
        r == (m@.dom().len() == 0),
{
    m.is_empty()
}

/// Relies on `HashMap::into_iter`: every entry of the map comes out once, in
/// an order that the hasher decides.
#[verifier::external_body]
pub(crate) fn fx_into_entries<K, V>(m: FxHashMap<K, V>) -> (r: Vec<(K, V)>)
    ensures
        r@.len() == m@.dom().len(),
        forall|i: int, j: int|
            0 <= i < j < r@.len() ==> r@[i].0 != r@[j].0,
        forall|i: int| 0 <= i < r@.len() ==> #[trigger] m@.contains_key(r@[i].0) && m@[r@[i].0] == r@[i].1,
        forall|k: K| #[trigger] m@.contains_key(k) ==> exists|i: int| 0 <= i < r@.len() && r@[i].0 == k,
{
    m.into_iter().collect()
}

} // verus!
