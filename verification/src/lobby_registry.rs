//! The process-wide registry of lobbies: a concurrent map from lobby id to
//! lobby, always used one entry at a time. The map comes from the dashmap
//! crate and is trusted through the contracts below, each stated over the
//! registry's contents; everything built on top of them is verified.

use crate::lobby::Lobby;
use vstd::prelude::*;

verus! {

/// dashmap's concurrent map, carried through opaquely: the contracts below
/// say everything the library knows of it.
#[verifier::external_type_specification]
#[verifier::external_body]
#[verifier::reject_recursive_types(K)]
#[verifier::reject_recursive_types(V)]
#[verifier::reject_recursive_types(S)]
pub struct ExDashMap<K, V, S>(dashmap::DashMap<K, V, S>);

/// What the lobby registry holds: its entries, as a map from the id's
/// characters to the lobby.
pub uninterp spec fn lobby_table(m: dashmap::DashMap<String, Lobby>) -> Map<Seq<char>, Lobby>;

/// Relies on dashmap's DashMap::new: a freshly created map holds nothing.
#[verifier::external_body]
pub fn table_new() -> (r: dashmap::DashMap<String, Lobby>)
    ensures
        lobby_table(r).dom() =~= Set::<Seq<char>>::empty(),
{
    dashmap::DashMap::new()
}

/// Relies on dashmap's DashMap::get: it returns the value under the key, if
/// there is one.
#[verifier::external_body]
pub fn table_get(m: &dashmap::DashMap<String, Lobby>, key: &str) -> (r: Option<Lobby>)
    ensures
        r == if lobby_table(*m).contains_key(key@) {
            Some(lobby_table(*m)[key@])
        } else {
            None::<Lobby>
        },
{
    m.get(key).map(|entry| *entry.value())
}

/// Relies on dashmap's DashMap::insert: it maps the key to the value,
/// replacing any previous entry under that key.
#[verifier::external_body]
pub fn table_insert(m: &mut dashmap::DashMap<String, Lobby>, key: &str, value: Lobby)
    ensures
        lobby_table(*final(m)) == lobby_table(*old(m)).insert(key@, value),
{
    m.insert(key.to_owned(), value);
}

/// Relies on dashmap's DashMap::remove: it removes the entry under the key
/// and hands back its value, if there was one.
#[verifier::external_body]
pub fn table_remove(m: &mut dashmap::DashMap<String, Lobby>, key: &str) -> (r: Option<Lobby>)
    ensures
        lobby_table(*final(m)) == lobby_table(*old(m)).remove(key@),
        r == if lobby_table(*old(m)).contains_key(key@) {
            Some(lobby_table(*old(m))[key@])
        } else {
            None::<Lobby>
        },
{
    m.remove(key).map(|entry| entry.1)
}

} // verus!
