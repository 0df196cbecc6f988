//! From the texts of references back to live actors.

use crate::actor_ref::{ActorRef, ActorRouting};
use crate::address::{parsed_address, ActorAddress, AddressView};
use crate::erased::{distinct_types, erased_as};
use crate::incarnation::{parsed_uuid, IncarnationId};
use crate::mailbox::{renewal_of, Mailbox};
use crate::message::{ActorMessage, IdentityView, Message};
use crate::registry::{entry_of, mailbox_in, place, registered_at, Place, Registry, RegistryEntry};
use crate::wire::{address_part, cut_at_hash, id_part, parsed_wire, WireFault};
use std::sync::Arc;
use tokio::sync::mpsc;
use vstd::prelude::*;

verus! {

/// Resolves texts to references to live actors.
pub struct ActorRefResolver<'a> {
    registry: &'a Registry,
}

impl<'a> View for ActorRefResolver<'a> {
    type V = Map<Place, Arc<RegistryEntry>>;

    closed spec fn view(&self) -> Map<Place, Arc<RegistryEntry>> {
        self.registry@
    }
}

/// The mailbox of the actor that accepts `M` at an address.
pub open spec fn mailbox_at<M: Message>(
    registry: Map<Place, Arc<RegistryEntry>>,
    a: AddressView,
) -> Option<Arc<Mailbox<M>>> {
    if registry.contains_key(place(a)) {
        mailbox_in::<M>(*registry[place(a)])
    } else {
        None
    }
}

/// The actor that accepts `M` at an address, with the address, if it is the
/// incarnation with this id or no id is given.
pub open spec fn incarnation_at<M: Message>(
    registry: Map<Place, Arc<RegistryEntry>>,
    a: AddressView,
    id: Option<IncarnationId>,
) -> Option<(AddressView, Arc<Mailbox<M>>)> {
    match mailbox_at::<M>(registry, a) {
        Some(mailbox) => if id is None || id == Some(registry[place(a)].mailbox.incarnation_id) {
            Some((a, mailbox))
        } else {
            None
        },
        None => None,
    }
}

/// The actor that a text refers to, by the address before the first `#` and, if
/// there is a `#`, by the incarnation id behind it.
pub open spec fn resolved<M: Message>(
    registry: Map<Place, Arc<RegistryEntry>>,
    s: Seq<char>,
) -> Option<(AddressView, Arc<Mailbox<M>>)> {
    match parsed_address(address_part(s)) {
        Err(_) => None,
        Ok(a) => match id_part(s) {
            None => incarnation_at::<M>(registry, a, None),
            Some(id) => match parsed_uuid(id) {
                Some(bits) => incarnation_at::<M>(registry, a, Some(IncarnationId { bits })),
                None => None,
            },
        },
    }
}

/// `res` is the reference to the actor that was found, if one was.
pub open spec fn refers_to<M: Message, N>(
    res: Option<ActorRef<M, N>>,
    actor: Option<(AddressView, Arc<Mailbox<M>>)>,
) -> bool {
    match (res, actor) {
        (Some(r), Some((a, mailbox))) => {
            &&& r.address@ == a
            &&& r.incarnation_id == mailbox.any.incarnation_id
            &&& r.routing == ActorRouting::<M, N>::Local(mailbox)
        },
        (None, None) => true,
        _ => false,
    }
}

impl<'a> ActorRefResolver<'a> {
    /// A resolver for the actors in a registry.
    pub fn new(registry: &'a Registry) -> (resolver: Self)
        ensures
            resolver@ == registry@,
    {
        ActorRefResolver { registry }
    }

    /// The actor that accepts `M` at an address, if it is the incarnation with
    /// this id or no id is given.
    pub fn find<M: Message, N>(&self, address: &ActorAddress, id: Option<IncarnationId>) -> (res:
        Option<ActorRef<M, N>>)
        ensures
            refers_to(res, incarnation_at::<M>(self@, address@, id)),
    {
        let entry: Arc<RegistryEntry> = match self.registry.get(address) {
            Some(entry) => entry,
            None => {
                return None;
            },
        };
        match id {
            Some(id) => {
                if entry.mailbox.incarnation_id() != id {
                    return None;
                }
            },
            None => {},
        }
        match entry.mailbox_for::<M>() {
            Some(mailbox) => Some(ActorRef::new_local(address.clone(), mailbox)),
            None => None,
        }
    }

    /// Resolve the text of a reference, `address#incarnation_id`, or a plain
    /// address. There is no actor if the text cannot be read, if nobody lives at
    /// the address, if another incarnation lives there, or if the actor there
    /// does not accept `M`.
    pub fn resolve<M: Message, N>(&self, addr_str: &str) -> (res: Option<ActorRef<M, N>>)
        ensures
            refers_to(res, resolved::<M>(self@, addr_str@)),
    {
        let (addr_part, uid_part) = cut_at_hash(addr_str);
        let address: ActorAddress = match ActorAddress::from_str(addr_part) {
            Ok(address) => address,
            Err(_) => {
                return None;
            },
        };
        match uid_part {
            Some(uid_str) => match IncarnationId::parse(uid_str) {
                Ok(uid) => self.find(&address, Some(uid)),
                Err(_) => None,
            },
            None => self.find(&address, None),
        }
    }
}

/// The text of a reference to a registered actor resolves to that actor.
pub proof fn law_live_references_resolve<M: Message>(
    registry: Map<Place, Arc<RegistryEntry>>,
    s: Seq<char>,
    id: IdentityView,
    mailbox: Arc<Mailbox<M>>,
)
    requires
        parsed_wire(s) == Ok::<IdentityView, WireFault>(id),
        registry.contains_key(place(id.address)),
        entry_of(*registry[place(id.address)], mailbox),
        mailbox.any.incarnation_id == id.incarnation_id,
    ensures
        resolved::<M>(registry, s) == Some((id.address, mailbox)),
{
}

/// The text of a reference to an incarnation that does not live any more
/// resolves to nothing, also when another one lives at its address.
pub proof fn law_stale_references_do_not_resolve<M: Message>(
    registry: Map<Place, Arc<RegistryEntry>>,
    s: Seq<char>,
    id: IdentityView,
)
    requires
        parsed_wire(s) == Ok::<IdentityView, WireFault>(id),
        registry.contains_key(place(id.address)) ==> registry[place(
            id.address,
        )].mailbox.incarnation_id != id.incarnation_id,
    ensures
        resolved::<M>(registry, s) is None,
{
}

/// What a text with an id resolves to has the address and the id of the text.
pub proof fn law_resolved_references_are_those_of_their_texts<M: Message>(
    registry: Map<Place, Arc<RegistryEntry>>,
    s: Seq<char>,
)
    requires
        id_part(s) is Some,
    ensures
        resolved::<M>(registry, s) matches Some((a, mailbox)) ==> parsed_wire(s) == Ok::<
            IdentityView,
            WireFault,
        >((IdentityView { address: a, incarnation_id: mailbox.any.incarnation_id })),
{
}

/// The text of a reference to an actor resolves to nothing for a message type
/// that the actor does not accept.
pub proof fn law_wrong_types_do_not_resolve<M: Message, C: Message>(
    registry: Map<Place, Arc<RegistryEntry>>,
    s: Seq<char>,
    mailbox: Arc<Mailbox<M>>,
)
    requires
        parsed_address(address_part(s)) matches Ok(a) && registry.contains_key(place(a)) && entry_of(
            *registry[place(a)],
            mailbox,
        ),
        distinct_types::<mpsc::Sender<ActorMessage<M>>, mpsc::Sender<ActorMessage<C>>>(),
    ensures
        resolved::<C>(registry, s) is None,
{
    let a = parsed_address(address_part(s))->Ok_0;
    crate::erased::law_types_are_told_apart::<
        mpsc::Sender<ActorMessage<M>>,
        mpsc::Sender<ActorMessage<C>>,
    >(
        &mailbox.msg_tx,
        &registry[place(a)].typed,
    );
}

/// When an actor is restarted, the texts of references to the incarnation before
/// resolve to nothing, while its address and the text of a reference to the new
/// incarnation resolve to the new one.
pub proof fn law_restarts_make_references_stale<M: Message>(
    before: Map<Place, Arc<RegistryEntry>>,
    after: Map<Place, Arc<RegistryEntry>>,
    a: AddressView,
    was: Arc<Mailbox<M>>,
    fresh: Arc<Mailbox<M>>,
    older: Seq<char>,
    newer: Seq<char>,
    plain: Seq<char>,
)
    requires
        renewal_of(*fresh, *was),
        fresh.any.incarnation_id != was.any.incarnation_id,
        registered_at(before, after, a, fresh),
        parsed_wire(older) == Ok::<IdentityView, WireFault>(
            (IdentityView { address: a, incarnation_id: was.any.incarnation_id }),
        ),
        parsed_wire(newer) == Ok::<IdentityView, WireFault>(
            (IdentityView { address: a, incarnation_id: fresh.any.incarnation_id }),
        ),
        !plain.contains('#'),
        parsed_address(plain) == Ok::<AddressView, crate::address::AddressFault>(a),
    ensures
        resolved::<M>(after, older) is None,
        resolved::<M>(after, newer) == Some((a, fresh)),
        resolved::<M>(after, plain) == Some((a, fresh)),
{
    law_stale_references_do_not_resolve::<M>(
        after,
        older,
        IdentityView { address: a, incarnation_id: was.any.incarnation_id },
    );
    law_plain_addresses_resolve::<M>(after, plain, a);
}

/// A plain address resolves to the actor that lives there, whichever
/// incarnation it is.
pub proof fn law_plain_addresses_resolve<M: Message>(
    registry: Map<Place, Arc<RegistryEntry>>,
    s: Seq<char>,
    a: AddressView,
)
    requires
        !s.contains('#'),
        parsed_address(s) == Ok::<AddressView, crate::address::AddressFault>(a),
    ensures
        resolved::<M>(registry, s) == incarnation_at::<M>(registry, a, None),
{
    crate::text::lemma_first_position(s, '#');
    assert(address_part(s) =~= s);
}

/// An address resolves exactly where an actor is registered that accepts the
/// message, and, where an id is given, has that id. What comes back leads to that
/// actor.
pub proof fn law_actors_are_found_by_address_and_id<M: Message, N>(
    resolver: &ActorRefResolver<'_>,
    address: &ActorAddress,
    id: Option<IncarnationId>,
    res: Option<ActorRef<M, N>>,
)
    requires
        call_ensures(ActorRefResolver::<'_>::find::<M, N>, (resolver, address, id), res),
    ensures
        ({
            let here = (address@.node_id, address@.path);
            let entry = resolver@[here];
            let way = erased_as::<mpsc::Sender<ActorMessage<M>>>(entry.typed);
            &&& res is Some <==> resolver@.contains_key(here) && way is Some && (id is None || id
                == Some(entry.mailbox.incarnation_id))
            &&& res matches Some(r) ==> r.address@ == address@ && r.incarnation_id
                == entry.mailbox.incarnation_id && (r.routing matches ActorRouting::Local(mailbox)
                && mailbox.any == entry.mailbox && way == Some(mailbox.msg_tx))
        }),
{
}

/// A text resolves as its address and its id do: the address is what stands
/// before the first `#`, the id is what stands behind it, and a text without a
/// `#` is an address alone. A text in which either cannot be read resolves to
/// nothing.
pub proof fn law_texts_resolve_as_their_parts<M: Message, N>(
    resolver: &ActorRefResolver<'_>,
    text: &str,
    address: Seq<char>,
    id: Option<Seq<char>>,
    res: Option<ActorRef<M, N>>,
)
    requires
        call_ensures(ActorRefResolver::<'_>::resolve::<M, N>, (resolver, text), res),
        !address.contains('#'),
        text@ == match id {
            Some(id) => address + seq!['#'] + id,
            None => address,
        },
    ensures
        ({
            let read = parsed_address(address);
            let bits = match id {
                Some(id) => parsed_uuid(id),
                None => None,
            };
            let here = (read->Ok_0.node_id, read->Ok_0.path);
            let entry = resolver@[here];
            let way = erased_as::<mpsc::Sender<ActorMessage<M>>>(entry.typed);
            &&& res is Some <==> read is Ok && (id is Some ==> bits is Some)
                && resolver@.contains_key(here) && way is Some && (id is Some
                ==> entry.mailbox.incarnation_id.bits == bits->Some_0)
            &&& res matches Some(r) ==> r.address@ == read->Ok_0 && r.incarnation_id
                == entry.mailbox.incarnation_id && (r.routing matches ActorRouting::Local(mailbox)
                && mailbox.any == entry.mailbox && way == Some(mailbox.msg_tx))
        }),
{
    let s = text@;
    let n = address.len() as int;
    match id {
        Some(id) => {
            assert(s[n] == '#');
            assert(s.take(n) =~= address);
            assert(s.skip(n + 1) =~= id);
        },
        None => {
            assert(s.take(n) =~= address);
        },
    }
    crate::text::lemma_first_position(s, '#');
    let k = crate::text::first_position(s, '#') as int;
    if k < n {
        assert(address[k] == '#');
        assert(address.contains('#'));
    }
    assert(k == n);
}

} // verus!
