//! The registry of live actors.

use crate::address::{copy_texts, ActorAddress, AddressView};
use crate::erased::{erased_as, erasure_of, Erased};
use crate::incarnation::drawn;
use crate::mailbox::{renewal_of, AnyMailbox, Mailbox};
use crate::message::{ActorMessage, Message};
use crate::text::texts;
use std::sync::Arc;
use tokio::sync::mpsc;
use vstd::prelude::*;

verus! {

/// What the registry knows of a live actor.
pub struct RegistryEntry {
    /// The part of its mailbox that does not depend on the message type.
    pub mailbox: Arc<AnyMailbox>,
    /// Where its messages are handed in, with the message type to be found again.
    pub typed: Erased,
}

/// A map that many threads may use.
#[verifier::external_type_specification]
#[verifier::external_body]
#[verifier::reject_recursive_types(K)]
#[verifier::reject_recursive_types(V)]
#[verifier::reject_recursive_types(S)]
pub struct ExDashMap<K, V, S>(dashmap::DashMap<K, V, S>);

/// A place in the registry: the node and the segments of an address.
pub type Place = (Seq<char>, Seq<Seq<char>>);

/// The place of an address.
pub open spec fn place(a: AddressView) -> Place {
    (a.node_id, a.path)
}

/// The place that a key of the map stands for.
pub open spec fn key_place(key: (String, Vec<String>)) -> Place {
    (key.0@, texts(key.1@))
}

/// A registry without actors.
pub open spec fn no_actors() -> Map<Place, Arc<RegistryEntry>> {
    Map::empty()
}

/// What the map holds.
pub uninterp spec fn contents(
    map: dashmap::DashMap<(String, Vec<String>), Arc<RegistryEntry>>,
) -> Map<(Seq<char>, Seq<Seq<char>>), Arc<RegistryEntry>>;

/// Calls `dashmap::DashMap::new`. Claims that the map is empty.
#[verifier::external_body]
fn map_new() -> (map: dashmap::DashMap<(String, Vec<String>), Arc<RegistryEntry>>)
    ensures
        contents(map) == no_actors(),
{
    dashmap::DashMap::new()
}

/// Calls `contains_key` of `dashmap::DashMap`. Claims that it tells whether the
/// map holds the key.
#[verifier::external_body]
fn map_contains(
    map: &dashmap::DashMap<(String, Vec<String>), Arc<RegistryEntry>>,
    key: &(String, Vec<String>),
) -> (yes: bool)
    ensures
        yes == contents(*map).contains_key(key_place(*key)),
{
    map.contains_key(key)
}

/// Calls `get` of `dashmap::DashMap` and copies the shared entry out of the
/// guard. Claims that it gives the entry at the key, if there is one.
#[verifier::external_body]
fn map_get(
    map: &dashmap::DashMap<(String, Vec<String>), Arc<RegistryEntry>>,
    key: &(String, Vec<String>),
) -> (res: Option<Arc<RegistryEntry>>)
    ensures
        match res {
            Some(entry) => contents(*map).contains_key(key_place(*key)) && contents(
                *map,
            )[key_place(*key)] == entry,
            None => !contents(*map).contains_key(key_place(*key)),
        },
{
    match map.get(key) {
        Some(guard) => Some(Arc::clone(guard.value())),
        None => None,
    }
}

/// Calls `insert` of `dashmap::DashMap`. Claims that the entry then stands at
/// the key, also where another one stood before, and that nothing else changes.
#[verifier::external_body]
fn map_insert(
    map: &mut dashmap::DashMap<(String, Vec<String>), Arc<RegistryEntry>>,
    key: (String, Vec<String>),
    entry: Arc<RegistryEntry>,
)
    ensures
        contents(*final(map)) == contents(*old(map)).insert(key_place(key), entry),
{
    map.insert(key, entry);
}

/// Calls `remove` of `dashmap::DashMap`. Claims that nothing stands at the key
/// afterwards, and that nothing else changes.
#[verifier::external_body]
fn map_remove(
    map: &mut dashmap::DashMap<(String, Vec<String>), Arc<RegistryEntry>>,
    key: &(String, Vec<String>),
)
    ensures
        contents(*final(map)) == contents(*old(map)).remove(key_place(*key)),
{
    map.remove(key);
}

/// Calls `is_empty` of `dashmap::DashMap`. Claims that it tells whether the map
/// holds nothing.
#[verifier::external_body]
fn map_is_empty(map: &dashmap::DashMap<(String, Vec<String>), Arc<RegistryEntry>>) -> (yes: bool)
    ensures
        yes == (contents(*map) == no_actors()),
{
    map.is_empty()
}

/// Calls `len` of `dashmap::DashMap`. Claims that it gives the number of keys.
#[verifier::external_body]
fn map_len(map: &dashmap::DashMap<(String, Vec<String>), Arc<RegistryEntry>>) -> (n: usize)
    ensures
        n == contents(*map).dom().len(),
{
    map.len()
}

/// Calls `iter` of `dashmap::DashMap` and copies the keys and the shared
/// entries out. Claims that each entry comes once, with its key; the order is
/// left open.
#[verifier::external_body]
fn map_entries(map: &dashmap::DashMap<(String, Vec<String>), Arc<RegistryEntry>>) -> (list: Vec<
    ((String, Vec<String>), Arc<RegistryEntry>),
>)
    ensures
        lists_all(list@, contents(*map)),
{
    map.iter().map(|e| (e.key().clone(), Arc::clone(e.value()))).collect()
}

/// `list` holds each key of the map once, with its entry.
pub open spec fn lists_all(
    list: Seq<((String, Vec<String>), Arc<RegistryEntry>)>,
    map: Map<Place, Arc<RegistryEntry>>,
) -> bool {
    &&& forall|i: int|
        0 <= i < list.len() ==> map.contains_key(key_place((#[trigger] list[i]).0)) && map[key_place(
            list[i].0,
        )] == list[i].1
    &&& forall|p: Place| #[trigger]
        map.contains_key(p) ==> exists|i: int|
            0 <= i < list.len() && key_place((#[trigger] list[i]).0) == p
    &&& forall|i: int, j: int|
        0 <= i < j < list.len() ==> key_place((#[trigger] list[i]).0) != key_place(
            (#[trigger] list[j]).0,
        )
}

/// The entry is that of the actor behind `mailbox`.
pub open spec fn entry_of<M: Message>(entry: RegistryEntry, mailbox: Arc<Mailbox<M>>) -> bool {
    &&& entry.mailbox == mailbox.any
    &&& erasure_of(mailbox.msg_tx, entry.typed)
    &&& erased_as::<mpsc::Sender<ActorMessage<M>>>(entry.typed) == Some(mailbox.msg_tx)
}

/// The mailbox of the actor with this entry, if the actor accepts `M`.
pub open spec fn mailbox_in<M: Message>(entry: RegistryEntry) -> Option<Arc<Mailbox<M>>> {
    match erased_as::<mpsc::Sender<ActorMessage<M>>>(entry.typed) {
        Some(msg_tx) => Some(Arc::new(Mailbox { msg_tx, any: entry.mailbox })),
        None => None,
    }
}

impl RegistryEntry {
    /// The mailbox of the actor, if the actor accepts `M`.
    pub fn mailbox_for<M: Message>(&self) -> (res: Option<Arc<Mailbox<M>>>)
        ensures
            res == mailbox_in::<M>(*self),
    {
        match self.typed.downcast::<mpsc::Sender<ActorMessage<M>>>() {
            Some(msg_tx) => Some(Arc::new(Mailbox { msg_tx, any: Arc::clone(&self.mailbox) })),
            None => None,
        }
    }
}

/// The entry of an actor leads to its mailbox.
pub proof fn law_entries_lead_to_their_mailboxes<M: Message>(
    entry: RegistryEntry,
    mailbox: Arc<Mailbox<M>>,
)
    requires
        entry_of(entry, mailbox),
    ensures
        mailbox_in::<M>(entry) == Some(mailbox),
{
}

/// The actor behind `mailbox` was registered at the address, and nothing else
/// changed.
pub open spec fn registered_at<M: Message>(
    before: Map<Place, Arc<RegistryEntry>>,
    after: Map<Place, Arc<RegistryEntry>>,
    a: AddressView,
    mailbox: Arc<Mailbox<M>>,
) -> bool {
    exists|entry: RegistryEntry| #[trigger]
        entry_of(entry, mailbox) && after == before.insert(place(a), Arc::new(entry))
}

fn key_of(address: &ActorAddress) -> (key: (String, Vec<String>))
    ensures
        key_place(key) == place(address@),
{
    (address.node_id.clone(), copy_texts(&address.path.segments))
}

/// The live actors of a system by their addresses.
pub struct Registry {
    map: dashmap::DashMap<(String, Vec<String>), Arc<RegistryEntry>>,
}

impl View for Registry {
    type V = Map<Place, Arc<RegistryEntry>>;

    closed spec fn view(&self) -> Map<Place, Arc<RegistryEntry>> {
        contents(self.map)
    }
}

impl Registry {
    /// The entry at an address.
    pub open spec fn entry_at(&self, a: AddressView) -> Option<Arc<RegistryEntry>> {
        if self@.contains_key(place(a)) {
            Some(self@[place(a)])
        } else {
            None
        }
    }

    /// A registry without actors.
    pub fn new() -> (registry: Registry)
        ensures
            registry@ == no_actors(),
    {
        Registry { map: map_new() }
    }

    /// Whether an actor lives at the address.
    pub fn contains(&self, address: &ActorAddress) -> (yes: bool)
        ensures
            yes == self@.contains_key(place(address@)),
    {
        map_contains(&self.map, &key_of(address))
    }

    /// The entry at the address.
    pub fn get(&self, address: &ActorAddress) -> (res: Option<Arc<RegistryEntry>>)
        ensures
            res == self.entry_at(address@),
    {
        map_get(&self.map, &key_of(address))
    }

    /// Put an entry at the address, in place of any other.
    pub fn insert(&mut self, address: &ActorAddress, entry: RegistryEntry)
        ensures
            final(self)@ == old(self)@.insert(place(address@), Arc::new(entry)),
    {
        map_insert(&mut self.map, key_of(address), Arc::new(entry))
    }

    /// Register the actor behind `mailbox` at the address, in place of any other.
    pub fn register<M: Message>(&mut self, address: &ActorAddress, mailbox: &Arc<Mailbox<M>>)
        ensures
            registered_at(old(self)@, final(self)@, address@, *mailbox),
    {
        let entry: RegistryEntry = RegistryEntry {
            mailbox: Arc::clone(&mailbox.any),
            typed: Erased::new(Arc::clone(&mailbox.msg_tx)),
        };
        assert(entry_of(entry, *mailbox));
        self.insert(address, entry);
    }

    /// Register the next incarnation of the actor behind `mailbox`.
    pub fn renew<M: Message>(&mut self, address: &ActorAddress, mailbox: &Arc<Mailbox<M>>) -> (
        fresh: Arc<Mailbox<M>>)
        ensures
            renewal_of(*fresh, **mailbox),
            registered_at(old(self)@, final(self)@, address@, fresh),
    {
        let fresh: Arc<Mailbox<M>> = Arc::new(mailbox.renewed());
        self.register(address, &fresh);
        fresh
    }

    /// Forget what stands at the address.
    pub fn remove(&mut self, address: &ActorAddress)
        ensures
            final(self)@ == old(self)@.remove(place(address@)),
    {
        map_remove(&mut self.map, &key_of(address))
    }

    /// Whether no actor lives.
    pub fn is_empty(&self) -> (yes: bool)
        ensures
            yes == (self@ == no_actors()),
    {
        map_is_empty(&self.map)
    }

    /// The number of live actors.
    pub fn len(&self) -> (n: usize)
        ensures
            n == self@.dom().len(),
    {
        map_len(&self.map)
    }

    /// All entries with their keys, in any order.
    pub fn entries(&self) -> (list: Vec<((String, Vec<String>), Arc<RegistryEntry>)>)
        ensures
            lists_all(list@, self@),
    {
        map_entries(&self.map)
    }
}

/// What an insertion or a removal does at one address leaves every other
/// address alone.
pub proof fn law_registry_addresses_are_independent(
    before: Map<Place, Arc<RegistryEntry>>,
    a: AddressView,
    b: AddressView,
    entry: Arc<RegistryEntry>,
)
    requires
        a != b,
    ensures
        before.insert(place(a), entry).contains_key(place(b)) == before.contains_key(place(b)),
        before.remove(place(a)).contains_key(place(b)) == before.contains_key(place(b)),
        before.contains_key(place(b)) ==> before.insert(place(a), entry)[place(b)]
            == before[place(b)],
        before.contains_key(place(b)) ==> before.remove(place(a))[place(b)] == before[place(b)],
{
}

/// What is known of an address goes by its node and its path, and by nothing
/// else: entries are kept, found, counted and taken out by them.
pub proof fn law_entries_are_kept_by_address(
    registry: &mut Registry,
    address: &ActorAddress,
    entry: RegistryEntry,
    found: Option<Arc<RegistryEntry>>,
    yes: bool,
    n: usize,
    p: (Seq<char>, Seq<Seq<char>>),
)
    ensures
        ({
            let here = (address@.node_id, address@.path);
            let before = old(registry)@;
            let after = final(registry)@;
            &&& call_ensures(Registry::new, (), *old(registry)) ==> !before.contains_key(p)
            &&& call_ensures(Registry::contains, (&*old(registry), address), yes) ==> (yes
                <==> before.contains_key(here))
            &&& call_ensures(Registry::get, (&*old(registry), address), found) ==> {
                &&& found is Some <==> before.contains_key(here)
                &&& found matches Some(e) ==> e == before[here]
            }
            &&& call_ensures(Registry::insert, (registry, address, entry), ()) ==> {
                &&& after.contains_key(here)
                &&& *after[here] == entry
                &&& p != here ==> (after.contains_key(p) <==> before.contains_key(p))
                &&& p != here && before.contains_key(p) ==> after[p] == before[p]
            }
            &&& call_ensures(Registry::remove, (registry, address), ()) ==> {
                &&& !after.contains_key(here)
                &&& p != here ==> (after.contains_key(p) <==> before.contains_key(p))
                &&& p != here && before.contains_key(p) ==> after[p] == before[p]
            }
            &&& call_ensures(Registry::is_empty, (&*old(registry),), yes) ==> (yes
                <==> before.is_empty())
            &&& call_ensures(Registry::len, (&*old(registry),), n) ==> n == before.dom().len()
        }),
{
    let before = old(registry)@;
    assert(before.is_empty() ==> before =~= Map::<Place, Arc<RegistryEntry>>::empty());
}

/// An actor that is registered stands at its address with its mailbox and with
/// the way for its messages. No other address is touched.
pub proof fn law_registered_actors_stand_at_their_address<M: Message>(
    registry: &mut Registry,
    address: &ActorAddress,
    mailbox: &Arc<Mailbox<M>>,
    p: (Seq<char>, Seq<Seq<char>>),
)
    requires
        call_ensures(Registry::register::<M>, (registry, address, mailbox), ()),
    ensures
        ({
            let here = (address@.node_id, address@.path);
            let after = final(registry)@;
            &&& after.contains_key(here)
            &&& after[here].mailbox == mailbox.any
            &&& erased_as::<mpsc::Sender<ActorMessage<M>>>(after[here].typed) == Some(
                mailbox.msg_tx,
            )
            &&& p != here ==> (after.contains_key(p) <==> old(registry)@.contains_key(p))
            &&& p != here && old(registry)@.contains_key(p) ==> after[p] == old(registry)@[p]
        }),
{
}

/// A renewed actor stands at its address with a mailbox that has a new id and
/// otherwise all that the mailbox before it had.
pub proof fn law_renewed_actors_stand_at_their_address<M: Message>(
    registry: &mut Registry,
    address: &ActorAddress,
    was: &Arc<Mailbox<M>>,
    fresh: Arc<Mailbox<M>>,
    p: (Seq<char>, Seq<Seq<char>>),
)
    requires
        call_ensures(Registry::renew::<M>, (registry, address, was), fresh),
    ensures
        ({
            let here = (address@.node_id, address@.path);
            let after = final(registry)@;
            &&& fresh.msg_tx == was.msg_tx
            &&& fresh.any.sys_tx == was.any.sys_tx
            &&& fresh.any.state == was.any.state
            &&& fresh.any.alive == was.any.alive
            &&& drawn(fresh.any.incarnation_id.bits)
            &&& after.contains_key(here)
            &&& after[here].mailbox == fresh.any
            &&& erased_as::<mpsc::Sender<ActorMessage<M>>>(after[here].typed) == Some(fresh.msg_tx)
            &&& p != here ==> (after.contains_key(p) <==> old(registry)@.contains_key(p))
            &&& p != here && old(registry)@.contains_key(p) ==> after[p] == old(registry)@[p]
        }),
{
}

/// The mailbox of an entry is there for the type of message that the actor was
/// registered for, with the way for messages and the rest that it was registered
/// with.
pub proof fn law_mailboxes_come_from_their_entries<M: Message>(
    entry: &RegistryEntry,
    res: Option<Arc<Mailbox<M>>>,
)
    requires
        call_ensures(RegistryEntry::mailbox_for::<M>, (entry,), res),
    ensures
        res is Some <==> erased_as::<mpsc::Sender<ActorMessage<M>>>(entry.typed) is Some,
        res matches Some(mailbox) ==> mailbox.any == entry.mailbox && erased_as::<
            mpsc::Sender<ActorMessage<M>>,
        >(entry.typed) == Some(mailbox.msg_tx),
{
}

/// The list of entries holds the entry at each address exactly once, and nothing
/// else.
pub proof fn law_entries_are_listed_once(
    registry: &Registry,
    list: Vec<((String, Vec<String>), Arc<RegistryEntry>)>,
    address: &ActorAddress,
)
    requires
        call_ensures(Registry::entries, (registry,), list),
        registry@.contains_key((address@.node_id, address@.path)),
    ensures
        exists|k: int|
            0 <= k < list@.len() && (#[trigger] list@[k]).0.0@ == address@.node_id
                && list@[k].0.1@.len() == address@.path.len() && (forall|i: int|
                0 <= i < address@.path.len() ==> (#[trigger] list@[k].0.1@[i])@ == address@.path[i])
                && list@[k].1 == registry@[(address@.node_id, address@.path)],
        forall|j: int, k: int|
            0 <= j < k < list@.len() ==> key_place((#[trigger] list@[j]).0) != key_place(
                (#[trigger] list@[k]).0,
            ),
{
    let here = (address@.node_id, address@.path);
    let k = choose|k: int| 0 <= k < list@.len() && key_place((#[trigger] list@[k]).0) == here;
    assert(texts(list@[k].0.1@) == address@.path);
    assert(texts(list@[k].0.1@).len() == list@[k].0.1@.len());
    assert forall|i: int| 0 <= i < address@.path.len() implies (#[trigger] list@[k].0.1@[i])@
        == address@.path[i] by {
        assert(texts(list@[k].0.1@)[i] == list@[k].0.1@[i]@);
    }
}

} // verus!
