use indexmap::{IndexMap, IndexSet};
use vstd::prelude::*;

verus! {

/// indexmap's insertion-ordered set, carried as an opaque value.
#[verifier::external_type_specification]
#[verifier::external_body]
#[verifier::reject_recursive_types(T)]
#[verifier::reject_recursive_types(S)]
pub struct ExIndexSet<T, S>(IndexSet<T, S>);

/// indexmap's insertion-ordered map, carried as an opaque value.
#[verifier::external_type_specification]
#[verifier::external_body]
#[verifier::reject_recursive_types(K)]
#[verifier::reject_recursive_types(V)]
#[verifier::reject_recursive_types(S)]
pub struct ExIndexMap<K, V, S>(IndexMap<K, V, S>);

/// Relies on indexmap's `Clone` for `IndexSet`, which copies the set; nothing
/// is claimed of the copy.
pub assume_specification<T, S>[ <IndexSet<T, S> as Clone>::clone ](s: &IndexSet<T, S>) -> IndexSet<
    T,
    S,
>
    where
        T: Clone,
        S: Clone,
;

/// Relies on indexmap's `Clone` for `IndexMap`, which copies the map; nothing
/// is claimed of the copy.
pub assume_specification<K, V, S>[ <IndexMap<K, V, S> as Clone>::clone ](
    m: &IndexMap<K, V, S>,
) -> IndexMap<K, V, S>
    where
        K: Clone,
        V: Clone,
        S: Clone,
;

/// The emoji of a set, in insertion order.
pub uninterp spec fn emoji_list(s: IndexSet<String>) -> Seq<Seq<char>>;

/// The emoji keys of a reaction map, in insertion order.
pub uninterp spec fn reaction_keys(m: IndexMap<String, IndexSet<String>>) -> Seq<Seq<char>>;

/// Relies on `IndexSet::contains`: whether an equal item is in the set.
#[verifier::external_body]
pub(crate) fn emoji_set_contains(s: &IndexSet<String>, emoji: &str) -> (r: bool)
    ensures
        r == emoji_list(*s).contains(emoji@),
{
    s.contains(emoji)
}

/// Relies on `IndexSet::len`: the number of items in the set.
#[verifier::external_body]
pub(crate) fn emoji_set_len(s: &IndexSet<String>) -> (r: usize)
    ensures
        r == emoji_list(*s).len(),
{
    s.len()
}

/// Relies on `IndexMap::new`: a map with no entries.
#[verifier::external_body]
pub(crate) fn no_reactions() -> (r: IndexMap<String, IndexSet<String>>)
    ensures
        reaction_keys(r).len() == 0,
{
    IndexMap::new()
}

} // verus!
