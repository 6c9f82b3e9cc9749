//! The registrations: a `dashmap::DashMap` from container ids to registered
//! actions, behind trusted functions. Nothing but `destroy` removes an entry.

use vstd::prelude::*;
use crate::action::{Template, WasmAction};

verus! {

/// `dashmap::DashMap`, a concurrent hash map. What it holds is told by the
/// functions below.
#[verifier::external_type_specification]
#[verifier::external_body]
#[verifier::reject_recursive_types(K)]
#[verifier::reject_recursive_types(V)]
#[verifier::reject_recursive_types(S)]
pub struct ExDashMap<K, V, S>(dashmap::DashMap<K, V, S>);

/// The map of the registrations, by container id.
pub type Registry = dashmap::DashMap<String, WasmAction<Template>, std::hash::RandomState>;

/// The registrations that the map holds: each container id with its action.
pub uninterp spec fn registered(map: Registry) -> Map<Seq<char>, WasmAction<Template>>;

/// Calls `DashMap::new`: a map without entries.
#[verifier::external_body]
pub(crate) fn new_registry() -> (map: Registry)
    ensures
        registered(map) == (Map::<Seq<char>, WasmAction<Template>>::empty()),
{
    dashmap::DashMap::new()
}

/// Calls `DashMap::insert`, which binds the id to the action, in place of
/// what the id was bound to.
#[verifier::external_body]
pub(crate) fn register(
    map: &mut Registry,
    container_id: String,
    action: WasmAction<Template>,
)
    ensures
        registered(*final(map)) == registered(*old(map)).insert(container_id@, action),
{
    map.insert(container_id, action);
}

/// Calls `DashMap::get` and copies the action out of the entry.
#[verifier::external_body]
pub(crate) fn lookup(
    map: &Registry,
    container_id: &str,
) -> (found: Option<WasmAction<Template>>)
    ensures
        match found {
            Some(action) => registered(*map).contains_key(container_id@) && registered(
                *map,
            )[container_id@] == action,
            None => !registered(*map).contains_key(container_id@),
        },
{
    map.get(container_id).map(|entry| entry.value().clone())
}

/// Calls `DashMap::remove`, which takes the entry of the id out of the map,
/// and returns whether there was one.
#[verifier::external_body]
pub(crate) fn unregister(
    map: &mut Registry,
    container_id: &str,
) -> (existed: bool)
    ensures
        existed == registered(*old(map)).contains_key(container_id@),
        registered(*final(map)) == registered(*old(map)).remove(container_id@),
{
    map.remove(container_id).is_some()
}

} // verus!
