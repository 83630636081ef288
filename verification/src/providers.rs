//! The boundary to `indexmap`, whose maps keep the providers in the order in which they
//! were added.
use vstd::prelude::*;

use crate::model::{Provider, ProviderView};
use crate::text::texts;

verus! {

#[verifier::external_type_specification]
#[verifier::external_body]
#[verifier::reject_recursive_types(K)]
#[verifier::reject_recursive_types(V)]
#[verifier::reject_recursive_types(S)]
pub struct ExIndexMap<K, V, S>(indexmap::IndexMap<K, V, S>);

/// The keys of a map of providers, in its order.
pub uninterp spec fn provider_ids(map: indexmap::IndexMap<String, Provider>) -> Seq<Seq<char>>;

/// The providers of a map, by their keys.
pub uninterp spec fn provider_map(map: indexmap::IndexMap<String, Provider>) -> Map<
    Seq<char>,
    ProviderView,
>;

/// Keys with one more; one that is there already stays where it is.
pub open spec fn with_id(ids: Seq<Seq<char>>, id: Seq<char>) -> Seq<Seq<char>> {
    if ids.contains(id) {
        ids
    } else {
        ids.push(id)
    }
}

/// Calls `indexmap::IndexMap::new`: a map without entries.
#[verifier::external_body]
pub(crate) fn no_providers() -> (r: indexmap::IndexMap<String, Provider>)
    ensures
        provider_ids(r) =~= Seq::empty(),
        provider_map(r) =~= Map::empty(),
{
    indexmap::IndexMap::new()
}

/// Calls `indexmap::IndexMap::insert`, which replaces the value of a key that is there
/// and leaves it in its place, and adds a new key at the end.
#[verifier::external_body]
pub(crate) fn put(map: &mut indexmap::IndexMap<String, Provider>, id: String, provider: Provider)
    ensures
        provider_ids(*final(map)) == with_id(provider_ids(*old(map)), id@),
        provider_map(*final(map)) == provider_map(*old(map)).insert(id@, provider@),
{
    map.insert(id, provider);
}

/// Calls `indexmap::IndexMap::get`.
#[verifier::external_body]
pub(crate) fn find<'a>(map: &'a indexmap::IndexMap<String, Provider>, id: &str) -> (r: Option<
    &'a Provider,
>)
    ensures
        match r {
            Some(provider) => {
                &&& provider_map(*map).contains_key(id@)
                &&& provider@ == provider_map(*map)[id@]
            },
            None => !provider_map(*map).contains_key(id@),
        },
{
    map.get(id)
}

/// Calls `indexmap::IndexMap::get_mut`: the value of a key, to be changed in its place.
#[verifier::external_body]
pub(crate) fn find_mut<'a>(map: &'a mut indexmap::IndexMap<String, Provider>, id: &str) -> (r:
    Option<&'a mut Provider>)
    ensures
        match r {
            Some(provider) => {
                &&& provider_map(*old(map)).contains_key(id@)
                &&& provider@ == provider_map(*old(map))[id@]
                &&& provider_ids(*final(map)) == provider_ids(*old(map))
                &&& provider_map(*final(map)) == provider_map(*old(map)).insert(
                    id@,
                    final(provider)@,
                )
            },
            None => {
                &&& !provider_map(*old(map)).contains_key(id@)
                &&& *final(map) == *old(map)
            },
        },
{
    map.get_mut(id)
}

/// Calls `indexmap::IndexMap::shift_remove`, which takes an entry out and keeps the order
/// of the others.
#[verifier::external_body]
pub(crate) fn take_out(map: &mut indexmap::IndexMap<String, Provider>, id: &str)
    ensures
        provider_ids(*final(map)) == provider_ids(*old(map)).remove_value(id@),
        provider_map(*final(map)) == provider_map(*old(map)).remove(id@),
{
    map.shift_remove(id);
}

/// The keys by `indexmap::IndexMap::keys`, which goes over each key once, in the order
/// of the map.
#[verifier::external_body]
pub(crate) fn list_ids(map: &indexmap::IndexMap<String, Provider>) -> (r: Vec<String>)
    ensures
        texts(r@) == provider_ids(*map),
        texts(r@).no_duplicates(),
        texts(r@).to_set() == provider_map(*map).dom(),
{
    map.keys().cloned().collect()
}

/// Calls `indexmap::IndexMap::is_empty`.
#[verifier::external_body]
pub(crate) fn has_none(map: &indexmap::IndexMap<String, Provider>) -> (r: bool)
    ensures
        r == (provider_ids(*map).len() == 0),
{
    map.is_empty()
}

/// Calls `indexmap::IndexMap::clone`, which copies each entry in the order of the map.
#[verifier::external_body]
pub(crate) fn copy_providers(map: &indexmap::IndexMap<String, Provider>) -> (r: indexmap::IndexMap<
    String,
    Provider,
>)
    ensures
        provider_ids(r) == provider_ids(*map),
        provider_map(r) == provider_map(*map),
{
    map.clone()
}

} // verus!
