//! Trusted interface to the hash sets of `bevy::platform` that hold the ids of changed
//! render targets.
use bevy::platform::collections::HashSet;
use bevy::platform::hash::FixedHasher;
use vstd::prelude::*;

verus! {

/// Declares `bevy::platform::collections::HashSet`; Verus sees nothing inside it.
#[verifier::external_type_specification]
#[verifier::external_body]
#[verifier::reject_recursive_types(T)]
#[verifier::reject_recursive_types(S)]
pub struct ExHashSet<T, S>(HashSet<T, S>);

/// Declares `bevy::platform::hash::FixedHasher`, the default hasher of those sets.
#[verifier::external_type_specification]
#[verifier::external_body]
pub struct ExFixedHasher(FixedHasher);

/// The ids held by a set of 64-bit ids.
pub uninterp spec fn ids64(set: HashSet<u64>) -> Set<u64>;

/// Calls `bevy::platform::collections::HashSet::new`: the new set holds nothing.
#[verifier::external_body]
pub(crate) fn ids64_new() -> (set: HashSet<u64>)
    ensures
        ids64(set) == Set::<u64>::empty(),
{
    HashSet::new()
}

/// Calls `bevy::platform::collections::HashSet::insert`: afterwards the set holds what it held and `id`.
#[verifier::external_body]
pub(crate) fn ids64_insert(set: &mut HashSet<u64>, id: u64)
    ensures
        ids64(*final(set)) == ids64(*old(set)).insert(id),
{
    set.insert(id);
}

/// Calls `bevy::platform::collections::HashSet::contains`: true exactly when the set holds `id`.
#[verifier::external_body]
pub(crate) fn ids64_contains(set: &HashSet<u64>, id: u64) -> (found: bool)
    ensures
        found == ids64(*set).contains(id),
{
    set.contains(&id)
}

/// The ids held by a set of 128-bit ids.
pub uninterp spec fn ids128(set: HashSet<u128>) -> Set<u128>;

/// Calls `bevy::platform::collections::HashSet::new`: the new set holds nothing.
#[verifier::external_body]
pub(crate) fn ids128_new() -> (set: HashSet<u128>)
    ensures
        ids128(set) == Set::<u128>::empty(),
{
    HashSet::new()
}

/// Calls `bevy::platform::collections::HashSet::insert`: afterwards the set holds what it held and `id`.
#[verifier::external_body]
pub(crate) fn ids128_insert(set: &mut HashSet<u128>, id: u128)
    ensures
        ids128(*final(set)) == ids128(*old(set)).insert(id),
{
    set.insert(id);
}

/// Calls `bevy::platform::collections::HashSet::contains`: true exactly when the set holds `id`.
#[verifier::external_body]
pub(crate) fn ids128_contains(set: &HashSet<u128>, id: u128) -> (found: bool)
    ensures
        found == ids128(*set).contains(id),
{
    set.contains(&id)
}

}
