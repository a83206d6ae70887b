//! The registries: per owner, which session identifiers are taken and by
//! which session or recognition job.
//!
//! A registry never holds two entries for one owner and identifier. Entries
//! are put in by the component that owns what they stand for and are taken
//! out by the garbage collector.
//!
//! The entries are kept in a `DashMap`. Its methods take a shared reference;
//! a registry changes it only through an exclusive one, so that what the
//! registry holds before and after each call can be stated.

use dashmap::DashMap;
use vstd::prelude::*;
use crate::ident::{SessionId, UserId};

verus! {

/// What stands for a session or a job in a registry: the number under which
/// the driver finds its running instance again.
pub type Handle = u64;

/// `dashmap::DashMap`, as an opaque type.
#[verifier::external_type_specification]
#[verifier::external_body]
#[verifier::reject_recursive_types(K)]
#[verifier::reject_recursive_types(V)]
#[verifier::reject_recursive_types(S)]
pub struct ExDashMap<K, V, S>(DashMap<K, V, S>);

/// The key of an entry: the owner's number and the session identifier.
pub type EntryKey = (i64, u128);

/// The collection behind a registry.
pub type HandleMap = DashMap<EntryKey, u64>;

/// The entries that a `DashMap` of handles holds, by owner and identifier.
pub uninterp spec fn dashmap_entries(table: HandleMap) -> Map<EntryKey, u64>;

/// A registry's entries when it holds none.
pub open spec fn no_entries() -> Map<EntryKey, u64> {
    Map::empty()
}

/// `DashMap::new`. Trusted: a new map holds no entry.
#[verifier::external_body]
fn dashmap_new() -> (table: HandleMap)
    ensures
        dashmap_entries(table) == no_entries(),
{
    DashMap::new()
}

/// `DashMap::insert`. Trusted: the key is bound to the value, whatever it
/// was bound to before is returned, and no other entry changes.
#[verifier::external_body]
fn dashmap_insert(table: &mut HandleMap, key: EntryKey, value: u64) -> (previous:
    Option<u64>)
    ensures
        dashmap_entries(*final(table)) == dashmap_entries(*old(table)).insert(key, value),
        previous == (if dashmap_entries(*old(table)).contains_key(key) {
            Some(dashmap_entries(*old(table))[key])
        } else {
            None
        }),
{
    table.insert(key, value)
}

/// `DashMap::remove`. Trusted: the entry of the key is taken out and its
/// value returned, if there was one, and no other entry changes.
#[verifier::external_body]
fn dashmap_remove(table: &mut HandleMap, key: EntryKey) -> (removed: Option<u64>)
    ensures
        dashmap_entries(*final(table)) == dashmap_entries(*old(table)).remove(key),
        removed == (if dashmap_entries(*old(table)).contains_key(key) {
            Some(dashmap_entries(*old(table))[key])
        } else {
            None
        }),
{
    table.remove(&key).map(|entry| entry.1)
}

/// `DashMap::get`. Trusted: the value that the key is bound to, if any.
#[verifier::external_body]
fn dashmap_get(table: &HandleMap, key: EntryKey) -> (found: Option<u64>)
    ensures
        found == (if dashmap_entries(*table).contains_key(key) {
            Some(dashmap_entries(*table)[key])
        } else {
            None
        }),
{
    table.get(&key).map(|entry| *entry.value())
}

/// `DashMap::contains_key`. Trusted: whether the key is bound.
#[verifier::external_body]
fn dashmap_contains_key(table: &HandleMap, key: EntryKey) -> (found: bool)
    ensures
        found == dashmap_entries(*table).contains_key(key),
{
    table.contains_key(&key)
}

/// `DashMap::entry` followed by `Entry::or_insert`. Trusted: a bound key
/// keeps its value, which is returned, and the map stays as it is; an
/// unbound key is bound to `value`, which is returned.
#[verifier::external_body]
fn dashmap_entry_or_insert(table: &mut HandleMap, key: EntryKey, value: u64) -> (bound:
    u64)
    ensures
        dashmap_entries(*old(table)).contains_key(key) ==> dashmap_entries(*final(table))
            == dashmap_entries(*old(table)) && bound == dashmap_entries(*old(table))[key],
        !dashmap_entries(*old(table)).contains_key(key) ==> dashmap_entries(*final(table))
            == dashmap_entries(*old(table)).insert(key, value) && bound == value,
{
    *table.entry(key).or_insert(value).value()
}

/// A registry: for each owner, the handles of that owner's sessions or
/// recognition jobs by session identifier.
pub struct Registry {
    entries: HandleMap,
}

/// The key of the entry of `id` for `user_id`.
pub open spec fn entry_key(user_id: UserId, id: SessionId) -> EntryKey {
    (user_id.0, id)
}

/// Looking `key` up and binding it to `handle` where it is unbound: the
/// entries afterwards, the handle that is bound, and whether it is new.
pub open spec fn claim(entries: Map<EntryKey, Handle>, key: EntryKey, handle: Handle) -> (
    Map<EntryKey, Handle>,
    Handle,
    bool,
) {
    if entries.contains_key(key) {
        (entries, entries[key], false)
    } else {
        (entries.insert(key, handle), handle, true)
    }
}

/// The entries after one claim of `key` for each of `handles`, in this
/// order, and how many of the claims bound a new handle.
pub open spec fn claim_all(entries: Map<EntryKey, Handle>, key: EntryKey, handles: Seq<Handle>) -> (
    Map<EntryKey, Handle>,
    nat,
)
    decreases handles.len(),
{
    if handles.len() == 0 {
        (entries, 0)
    } else {
        let (before, created) = claim_all(entries, key, handles.drop_last());
        let (after, _, fresh) = claim(before, key, handles.last());
        (
            after,
            if fresh {
                created + 1
            } else {
                created
            },
        )
    }
}

impl View for Registry {
    type V = Map<EntryKey, Handle>;

    /// The entries, each under the key of its owner and identifier.
    closed spec fn view(&self) -> Map<EntryKey, Handle> {
        dashmap_entries(self.entries)
    }
}

/// The registry of the sessions.
pub type SessionStorage = Registry;

/// The registry of the recognition jobs.
pub type AsrProcessorStorage = Registry;

impl Registry {
    /// An empty registry.
    pub fn new() -> (registry: Self)
        ensures
            registry@ == no_entries(),
    {
        Registry { entries: dashmap_new() }
    }

    /// Whether `id` is registered for `user_id`.
    pub fn contains_key(&self, user_id: UserId, id: SessionId) -> (found: bool)
        ensures
            found == self@.contains_key(entry_key(user_id, id)),
    {
        dashmap_contains_key(&self.entries, (user_id.0, id))
    }

    /// The handle registered under `id` for `user_id`.
    pub fn get(&self, user_id: UserId, id: SessionId) -> (found: Option<Handle>)
        ensures
            found == (if self@.contains_key(entry_key(user_id, id)) {
                Some(self@[entry_key(user_id, id)])
            } else {
                None
            }),
    {
        dashmap_get(&self.entries, (user_id.0, id))
    }

    /// Registers `handle` under `id` for `user_id`, in place of what was
    /// registered there, which is returned.
    pub fn insert(&mut self, user_id: UserId, id: SessionId, handle: Handle) -> (previous: Option<
        Handle,
    >)
        ensures
            final(self)@ == old(self)@.insert(entry_key(user_id, id), handle),
            previous == (if old(self)@.contains_key(entry_key(user_id, id)) {
                Some(old(self)@[entry_key(user_id, id)])
            } else {
                None
            }),
    {
        dashmap_insert(&mut self.entries, (user_id.0, id), handle)
    }

    /// Removes the entry of `id` for `user_id`, if there is one, and
    /// returns its handle. No other entry changes.
    pub fn remove(&mut self, user_id: UserId, id: SessionId) -> (removed: Option<Handle>)
        ensures
            final(self)@ == old(self)@.remove(entry_key(user_id, id)),
            removed == (if old(self)@.contains_key(entry_key(user_id, id)) {
                Some(old(self)@[entry_key(user_id, id)])
            } else {
                None
            }),
    {
        dashmap_remove(&mut self.entries, (user_id.0, id))
    }

    /// Looks `id` up for `user_id` and registers `handle` where nothing is
    /// registered, in one step. Returns the handle that is registered
    /// afterwards and whether it is the new one.
    pub fn get_or_insert(&mut self, user_id: UserId, id: SessionId, handle: Handle) -> (bound: (
        Handle,
        bool,
    ))
        ensures
            (final(self)@, bound.0, bound.1) == claim(old(self)@, entry_key(user_id, id), handle),
    {
        let created = !dashmap_contains_key(&self.entries, (user_id.0, id));
        let bound = dashmap_entry_or_insert(&mut self.entries, (user_id.0, id), handle);
        (bound, created)
    }
}


/// At most one instance per owner and identifier: however many claims are
/// made of one key, the first binds it, if it was unbound, and all the
/// later ones find that binding. So the claims of a key that was unbound
/// create exactly one instance, and those of a bound key create none.
pub proof fn lemma_one_instance_per_key(
    entries: Map<EntryKey, Handle>,
    key: EntryKey,
    handles: Seq<Handle>,
)
    requires
        handles.len() > 0,
    ensures
        entries.contains_key(key) ==> claim_all(entries, key, handles) == (entries, 0nat),
        !entries.contains_key(key) ==> claim_all(entries, key, handles) == (
            entries.insert(key, handles[0]),
            1nat,
        ),
    decreases handles.len(),
{
    let earlier = handles.drop_last();
    if handles.len() > 1 {
        lemma_one_instance_per_key(entries, key, earlier);
        assert(earlier[0] == handles[0]);
    } else {
        assert(claim_all(entries, key, earlier) == (entries, 0nat));
        assert(handles.last() == handles[0]);
    }
    let before = claim_all(entries, key, earlier);
    let after = claim(before.0, key, handles.last());
    assert(claim_all(entries, key, handles) == (
        after.0,
        if after.2 {
            before.1 + 1
        } else {
            before.1
        },
    ));
    if !entries.contains_key(key) && handles.len() > 1 {
        assert(before.0.contains_key(key));
    }
}

} // verus!
