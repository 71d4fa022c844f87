use vstd::prelude::*;

use dashmap::DashMap;

use crate::connection::{Action, ActionView};

verus! {

#[verifier::external_type_specification]
#[verifier::external_body]
#[verifier::reject_recursive_types(K)]
#[verifier::reject_recursive_types(V)]
#[verifier::reject_recursive_types(S)]
pub struct ExDashMap<K, V, S>(DashMap<K, V, S>);

/// The concurrent map behind the registry.
pub type ClientMap = DashMap<String, String>;

/// What a concurrent map of client ids to display names holds.
pub uninterp spec fn dash_entries(m: DashMap<String, String>) -> Map<Seq<char>, Seq<char>>;

/// The registry contents with nobody connected.
pub open spec fn no_clients() -> Map<Seq<char>, Seq<char>> {
    Map::empty()
}

/// Relies on dashmap's `DashMap::new`: a map with no entries.
#[verifier::external_body]
fn dash_new() -> (r: ClientMap)
    ensures
        dash_entries(r) == no_clients(),
{
    DashMap::new()
}

/// Relies on dashmap's `DashMap::insert`: the key now maps to the value, and
/// the value it had before comes back.
#[verifier::external_body]
fn dash_insert(m: &mut DashMap<String, String>, key: String, value: String) -> (r: Option<String>)
    ensures
        dash_entries(*final(m)) == dash_entries(*old(m)).insert(key@, value@),
        r is Some <==> dash_entries(*old(m)).contains_key(key@),
        r matches Some(v) ==> v@ == dash_entries(*old(m))[key@],
{
    m.insert(key, value)
}

/// Relies on dashmap's `DashMap::remove`: the key's entry is gone, and comes
/// back if there was one.
#[verifier::external_body]
fn dash_remove(m: &mut DashMap<String, String>, key: &str) -> (r: Option<(String, String)>)
    ensures
        dash_entries(*final(m)) == dash_entries(*old(m)).remove(key@),
        r is Some <==> dash_entries(*old(m)).contains_key(key@),
        r matches Some(kv) ==> kv.0@ == key@ && kv.1@ == dash_entries(*old(m))[key@],
{
    m.remove(key)
}

/// Relies on dashmap's `DashMap::get`: a copy of the key's value, if any.
#[verifier::external_body]
fn dash_get(m: &DashMap<String, String>, key: &str) -> (r: Option<String>)
    ensures
        r is Some <==> dash_entries(*m).contains_key(key@),
        r matches Some(v) ==> v@ == dash_entries(*m)[key@],
{
    m.get(key).map(|e| e.value().clone())
}

/// Relies on dashmap's `DashMap::len`: the number of entries.
#[verifier::external_body]
fn dash_len(m: &DashMap<String, String>) -> (r: usize)
    ensures
        r == dash_entries(*m).len(),
{
    m.len()
}

/// The directory of connected participants: client id to display name.
pub struct Registry {
    clients: DashMap<String, String>,
}

impl View for Registry {
    type V = Map<Seq<char>, Seq<char>>;

    closed spec fn view(&self) -> Map<Seq<char>, Seq<char>> {
        dash_entries(self.clients)
    }
}

/// The registry after one action of a connection: registrations insert,
/// deregistrations remove, other actions leave it as it is.
pub open spec fn membership_after(m: Map<Seq<char>, Seq<char>>, a: ActionView) -> Map<
    Seq<char>,
    Seq<char>,
> {
    match a {
        ActionView::Register { client_id, display_name } => m.insert(client_id, display_name),
        ActionView::Deregister { client_id } => m.remove(client_id),
        _ => m,
    }
}

impl Registry {
    /// An empty registry.
    pub fn new() -> (r: Registry)
        ensures
            r@ == no_clients(),
    {
        Registry { clients: dash_new() }
    }

    /// Enters a participant, replacing any earlier name under that id.
    pub fn insert(&mut self, client_id: String, display_name: String) -> (r: Option<String>)
        ensures
            final(self)@ == old(self)@.insert(client_id@, display_name@),
            r is Some <==> old(self)@.contains_key(client_id@),
            r matches Some(v) ==> v@ == old(self)@[client_id@],
    {
        dash_insert(&mut self.clients, client_id, display_name)
    }

    /// Removes a participant; says whether it was there.
    pub fn remove(&mut self, client_id: &str) -> (r: bool)
        ensures
            final(self)@ == old(self)@.remove(client_id@),
            r == old(self)@.contains_key(client_id@),
    {
        dash_remove(&mut self.clients, client_id).is_some()
    }

    /// The display name registered under `client_id`.
    pub fn display_name(&self, client_id: &str) -> (r: Option<String>)
        ensures
            r is Some <==> self@.contains_key(client_id@),
            r matches Some(v) ==> v@ == self@[client_id@],
    {
        dash_get(&self.clients, client_id)
    }

    /// Whether `client_id` is connected.
    pub fn contains(&self, client_id: &str) -> (r: bool)
        ensures
            r == self@.contains_key(client_id@),
    {
        dash_get(&self.clients, client_id).is_some()
    }

    /// Number of connected participants.
    pub fn len(&self) -> (r: usize)
        ensures
            r == self@.len(),
    {
        dash_len(&self.clients)
    }

    /// Carries out a connection's registration or deregistration; other
    /// actions do not touch the registry.
    pub fn apply(&mut self, action: &Action) -> (r: bool)
        ensures
            final(self)@ == membership_after(old(self)@, action@),
            r == (action@ is Register || action@ is Deregister),
    {
        match action {
            Action::Register { client_id, display_name } => {
                self.insert(client_id.clone(), display_name.clone());
                true
            },
            Action::Deregister { client_id } => {
                self.remove(client_id.as_str());
                true
            },
            _ => false,
        }
    }
}

} // verus!
