//! Small, deterministic pieces of route health accounting.

use vstd::prelude::*;
use crate::text::{lemma_sorted_permutations_agree, sort_strings, sorted, views};

verus! {

/// `BuildHasher::hash_one` with the default hasher of `std`, over the family
/// and the authorities. The default hasher's algorithm is unspecified, and it
/// writes lengths at the machine's pointer width, so nothing is stated of the
/// value.
#[verifier::external_body]
fn default_hash_of(family: &str, authorities: &Vec<String>) -> u64 {
    std::hash::BuildHasher::hash_one(
        &std::hash::BuildHasherDefault::<std::collections::hash_map::DefaultHasher>::default(),
        (family, authorities),
    )
}

/// Stable scope identifier for task-level route probes: the authorities are
/// sorted first, so that their order does not change the scope, and the
/// family and the sorted authorities are hashed.
pub fn probe_scope(family: &str, authorities: &mut Vec<String>) -> (scope: u64)
    ensures
        sorted(final(authorities)@),
        final(authorities)@.to_multiset() == old(authorities)@.to_multiset(),
{
    sort_strings(authorities);
    default_hash_of(family, authorities)
}

/// The scope does not depend on the order of the authorities: two lists of
/// the same authorities, in any order, are hashed as the same sorted list.
pub proof fn probe_scope_ignores_authority_order(
    first: Seq<String>,
    first_sorted: Seq<String>,
    second: Seq<String>,
    second_sorted: Seq<String>,
)
    requires
        first.to_multiset() == second.to_multiset(),
        sorted(first_sorted),
        first_sorted.to_multiset() == first.to_multiset(),
        sorted(second_sorted),
        second_sorted.to_multiset() == second.to_multiset(),
    ensures
        views(first_sorted) == views(second_sorted),
{
    lemma_sorted_permutations_agree(first_sorted, second_sorted);
}

} // verus!
