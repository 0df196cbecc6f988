//! The children of an actor.

use crate::address::{ActorAddress, AddressView};
use crate::channel::signalled;
use crate::error::ActorError;
use crate::mailbox::{sent_system, AnyMailbox, Notice, NoticeView};
use crate::message::{Signal, SystemMessage};
use crate::text::same_text;
use std::sync::Arc;
use vstd::prelude::*;

verus! {

/// The children of an actor by their names.
pub struct Children {
    entries: Vec<(String, Arc<AnyMailbox>)>,
}

/// The names in a list of children.
pub open spec fn names(entries: Seq<(String, Arc<AnyMailbox>)>) -> Seq<Seq<char>> {
    Seq::new(entries.len(), |i: int| entries[i].0@)
}

/// The children in a list by their names.
pub open spec fn by_name(entries: Seq<(String, Arc<AnyMailbox>)>) -> Map<
    Seq<char>,
    Arc<AnyMailbox>,
> {
    Map::new(
        |name: Seq<char>| names(entries).contains(name),
        |name: Seq<char>| entries[names(entries).index_of(name)].1,
    )
}

/// A list with distinct names holds each of its children under its name.
proof fn lemma_by_name(entries: Seq<(String, Arc<AnyMailbox>)>)
    requires
        names(entries).no_duplicates(),
    ensures
        forall|i: int|
            0 <= i < entries.len() ==> by_name(entries).contains_key((#[trigger] entries[i]).0@)
                && by_name(entries)[entries[i].0@] == entries[i].1,
{
    assert forall|i: int| 0 <= i < entries.len() implies by_name(entries).contains_key(
        (#[trigger] entries[i]).0@,
    ) && by_name(entries)[entries[i].0@] == entries[i].1 by {
        assert(names(entries)[i] == entries[i].0@);
        assert(names(entries).contains(entries[i].0@));
    }
}

/// Leaving out the child at `i` removes its name.
proof fn lemma_remove(entries: Seq<(String, Arc<AnyMailbox>)>, i: int)
    requires
        names(entries).no_duplicates(),
        0 <= i < entries.len(),
    ensures
        names(entries.remove(i)).no_duplicates(),
        by_name(entries.remove(i)) == by_name(entries).remove(entries[i].0@),
{
    let rest = entries.remove(i);
    let gone = entries[i].0@;
    assert forall|j: int, k: int| 0 <= j < k < rest.len() implies names(rest)[j] != names(
        rest,
    )[k] by {
        let j0 = if j < i { j } else { j + 1 };
        let k0 = if k < i { k } else { k + 1 };
        assert(names(rest)[j] == names(entries)[j0]);
        assert(names(rest)[k] == names(entries)[k0]);
    }
    assert(names(rest).no_duplicates());
    lemma_by_name(rest);
    lemma_by_name(entries);
    assert forall|name: Seq<char>| by_name(rest).contains_key(name) == by_name(entries).remove(
        gone,
    ).contains_key(name) by {
        if by_name(rest).contains_key(name) {
            let j = names(rest).index_of(name);
            let j0 = if j < i { j } else { j + 1 };
            assert(names(entries)[j0] == name);
            assert(names(entries)[i] == gone);
        }
        if by_name(entries).remove(gone).contains_key(name) {
            let j0 = names(entries).index_of(name);
            assert(names(entries)[i] == gone);
            assert(j0 != i);
            let j = if j0 < i { j0 } else { j0 - 1 };
            assert(names(rest)[j] == name);
        }
    }
    assert forall|name: Seq<char>| by_name(rest).contains_key(name) implies by_name(rest)[name]
        == by_name(entries)[name] by {
        let j = names(rest).index_of(name);
        let j0 = if j < i { j } else { j + 1 };
        assert(rest[j] == entries[j0]);
        assert(entries[j0].0@ == name);
    }
    assert(by_name(rest) =~= by_name(entries).remove(gone));
}

/// Adding a child under a new name inserts it.
proof fn lemma_push(entries: Seq<(String, Arc<AnyMailbox>)>, child: (String, Arc<AnyMailbox>))
    requires
        names(entries).no_duplicates(),
        !names(entries).contains(child.0@),
    ensures
        names(entries.push(child)).no_duplicates(),
        by_name(entries.push(child)) == by_name(entries).insert(child.0@, child.1),
{
    let more = entries.push(child);
    assert(names(more) =~= names(entries).push(child.0@));
    assert forall|j: int, k: int| 0 <= j < k < more.len() implies names(more)[j] != names(
        more,
    )[k] by {
        if k == entries.len() {
            assert(names(entries).contains(names(entries)[j]));
        }
    }
    assert(names(more).no_duplicates());
    lemma_by_name(more);
    lemma_by_name(entries);
    assert forall|name: Seq<char>| by_name(more).contains_key(name) == by_name(entries).insert(
        child.0@,
        child.1,
    ).contains_key(name) by {
        if by_name(entries).contains_key(name) {
            let j = names(entries).index_of(name);
            assert(names(more)[j] == name);
        }
        assert(names(more)[entries.len() as int] == child.0@);
        if by_name(more).contains_key(name) {
            let j = names(more).index_of(name);
            if j < entries.len() {
                assert(names(entries)[j] == name);
            }
        }
    }
    assert forall|name: Seq<char>| by_name(more).contains_key(name) implies by_name(more)[name]
        == by_name(entries).insert(child.0@, child.1)[name] by {
        let j = names(more).index_of(name);
        assert(more[j].0@ == name);
        if j < entries.len() {
            assert(more[j] == entries[j]);
            assert(names(entries)[j] == name);
        }
    }
    assert(by_name(more) =~= by_name(entries).insert(child.0@, child.1));
}

impl View for Children {
    type V = Map<Seq<char>, Arc<AnyMailbox>>;

    closed spec fn view(&self) -> Map<Seq<char>, Arc<AnyMailbox>> {
        by_name(self.entries@)
    }
}

/// The children of the actor at `own` that are left when the one at an address is
/// gone. Only the address of a child is that of one.
pub open spec fn without_address(
    own: AddressView,
    children: Map<Seq<char>, Arc<AnyMailbox>>,
    a: AddressView,
) -> Map<Seq<char>, Arc<AnyMailbox>> {
    if ActorAddress::stands_below(a, own) {
        children.remove(a.path.last())
    } else {
        children
    }
}

/// A child that was added under its name is forgotten by its address.
pub proof fn law_children_are_forgotten_by_their_addresses(
    children: Map<Seq<char>, Arc<AnyMailbox>>,
    parent: AddressView,
    name: Seq<char>,
    child: Arc<AnyMailbox>,
)
    requires
        ActorAddress::child_address(parent, name) is Ok,
    ensures
        without_address(
            parent,
            children.insert(name, child),
            ActorAddress::child_address(parent, name)->Ok_0,
        ) == children.remove(name),
{
    let a = ActorAddress::child_address(parent, name)->Ok_0;
    assert(a.path.drop_last() =~= parent.path);
    assert(children.insert(name, child).remove(name) =~= children.remove(name));
}

/// A child under a new name is one child more.
pub proof fn law_new_children_are_counted(
    children: Map<Seq<char>, Arc<AnyMailbox>>,
    name: Seq<char>,
    child: Arc<AnyMailbox>,
)
    requires
        children.dom().finite(),
        !children.contains_key(name),
    ensures
        children.insert(name, child).dom().len() == children.dom().len() + 1,
{
    assert(children.insert(name, child).dom() =~= children.dom().insert(name));
}

/// Forgetting one child leaves the children with other names alone.
pub proof fn law_other_children_are_kept(
    own: AddressView,
    children: Map<Seq<char>, Arc<AnyMailbox>>,
    a: AddressView,
    name: Seq<char>,
)
    requires
        a != (AddressView { node_id: own.node_id, path: own.path.push(name) }),
    ensures
        without_address(own, children, a).contains_key(name) == children.contains_key(name),
        children.contains_key(name) ==> without_address(own, children, a)[name] == children[name],
{
    if ActorAddress::stands_below(a, own) && a.path.last() == name {
        assert(a.path =~= own.path.push(name));
    }
}

/// `list` tells each of the children to stop, once: the one at each place the
/// child whose name stands there in `order`.
pub open spec fn stops_each_once(
    list: Seq<Notice>,
    order: Seq<Seq<char>>,
    children: Map<Seq<char>, Arc<AnyMailbox>>,
) -> bool {
    &&& list.len() == order.len()
    &&& order.no_duplicates()
    &&& forall|name: Seq<char>| order.contains(name) <==> #[trigger] children.contains_key(name)
    &&& forall|k: int|
        0 <= k < list.len() ==> children.contains_key(#[trigger] order[k]) && list[k]@ == (
        NoticeView { to: children[order[k]], message: Signal::PoisonPill })
}

impl Children {
    /// No two children have the same name.
    #[verifier::type_invariant]
    spec fn distinct(&self) -> bool {
        names(self.entries@).no_duplicates()
    }

    /// No children.
    pub fn new() -> (children: Children)
        ensures
            children@ == Map::<Seq<char>, Arc<AnyMailbox>>::empty(),
    {
        let children: Children = Children { entries: Vec::new() };
        assert(children@ =~= Map::<Seq<char>, Arc<AnyMailbox>>::empty());
        children
    }

    fn position(&self, name: &str) -> (res: Option<usize>)
        ensures
            match res {
                Some(i) => i < self.entries@.len() && self.entries@[i as int].0@ == name@,
                None => !names(self.entries@).contains(name@),
            },
    {
        let mut i: usize = 0;
        while i < self.entries.len()
            invariant
                i <= self.entries@.len(),
                forall|k: int| 0 <= k < i ==> (#[trigger] names(self.entries@)[k]) != name@,
            decreases self.entries@.len() - i,
        {
            if same_text(self.entries[i].0.as_str(), name) {
                return Some(i);
            }
            i = i + 1;
        }
        None
    }

    /// The child with this name.
    pub fn get(&self, name: &str) -> (res: Option<&Arc<AnyMailbox>>)
        ensures
            match res {
                Some(child) => self@.contains_key(name@) && self@[name@] == *child,
                None => !self@.contains_key(name@),
            },
    {
        proof {
            use_type_invariant(self);
            lemma_by_name(self.entries@);
        }
        match self.position(name) {
            Some(i) => Some(&self.entries[i].1),
            None => None,
        }
    }

    /// Take the child with this name out.
    pub fn remove(&mut self, name: &str) -> (res: Option<Arc<AnyMailbox>>)
        ensures
            final(self)@ == old(self)@.remove(name@),
            match res {
                Some(child) => old(self)@.contains_key(name@) && old(self)@[name@] == child,
                None => !old(self)@.contains_key(name@),
            },
    {
        proof {
            use_type_invariant(&*self);
            lemma_by_name(self.entries@);
        }
        match self.position(name) {
            Some(i) => {
                proof {
                    lemma_remove(self.entries@, i as int);
                }
                let mut entries: Vec<(String, Arc<AnyMailbox>)> = Vec::new();
                std::mem::swap(&mut self.entries, &mut entries);
                let (_name, child) = entries.remove(i);
                *self = Children { entries };
                Some(child)
            },
            None => {
                assert(self@ =~= self@.remove(name@));
                None
            },
        }
    }

    /// Add a child, in place of any other with this name.
    pub fn insert(&mut self, name: &str, child: Arc<AnyMailbox>)
        ensures
            final(self)@ == old(self)@.insert(name@, child),
    {
        let _replaced: Option<Arc<AnyMailbox>> = self.remove(name);
        proof {
            use_type_invariant(&*self);
            lemma_by_name(self.entries@);
            assert(!self@.contains_key(name@));
        }
        let owned: String = name.to_owned();
        proof {
            lemma_push(self.entries@, (owned, child));
            assert(old(self)@.remove(name@).insert(name@, child) =~= old(self)@.insert(
                name@,
                child,
            ));
        }
        let mut entries: Vec<(String, Arc<AnyMailbox>)> = Vec::new();
        std::mem::swap(&mut self.entries, &mut entries);
        entries.push((owned, child));
        *self = Children { entries };
    }

    /// The number of children.
    pub fn len(&self) -> (n: usize)
        ensures
            self@.dom().finite(),
            n == self@.dom().len(),
    {
        proof {
            use_type_invariant(self);
            names(self.entries@).unique_seq_to_set();
            assert(self@.dom() =~= names(self.entries@).to_set());
        }
        self.entries.len()
    }

    /// Forget the child of the actor at `own` that lives at an address.
    pub fn remove_child_by_address(&mut self, own: &ActorAddress, address: &ActorAddress)
        ensures
            final(self)@ == without_address(own@, old(self)@, address@),
    {
        if !address.is_child_of(own) {
            return ;
        }
        match address.name() {
            Some(name) => {
                let _gone: Option<Arc<AnyMailbox>> = self.remove(name);
            },
            None => {},
        }
    }

    /// Stop the child with this name and forget it. Without such a child there
    /// is nothing to do.
    pub fn stop_child(&mut self, name: &str) -> (res: Result<(), ActorError>)
        ensures
            final(self)@ == old(self)@.remove(name@),
            old(self)@.contains_key(name@) ==> sent_system(
                *old(self)@[name@].sys_tx,
                Signal::PoisonPill,
                res,
            ),
            !old(self)@.contains_key(name@) ==> res is Ok,
    {
        match self.remove(name) {
            Some(child) => child.send_system(SystemMessage::PoisonPill),
            None => Ok(()),
        }
    }

    /// Forget all children, and say how each is told to stop.
    pub fn stop_all_children(&mut self) -> (list: Vec<Notice>)
        ensures
            final(self)@ == Map::<Seq<char>, Arc<AnyMailbox>>::empty(),
            exists|order: Seq<Seq<char>>| #[trigger] stops_each_once(list@, order, old(self)@),
    {
        proof {
            use_type_invariant(&*self);
            lemma_by_name(self.entries@);
        }
        let ghost before = self.entries@;
        let mut list: Vec<Notice> = Vec::new();
        let mut i: usize = 0;
        while i < self.entries.len()
            invariant
                self.entries@ == before,
                i <= before.len(),
                list@.len() == i,
                forall|k: int|
                    0 <= k < i ==> (#[trigger] list@[k])@ == (NoticeView {
                        to: before[k].1,
                        message: Signal::PoisonPill,
                    }),
            decreases before.len() - i,
        {
            list.push(
                Notice {
                    to: Arc::clone(&self.entries[i].1),
                    message: SystemMessage::PoisonPill,
                },
            );
            i = i + 1;
        }
        proof {
            assert(stops_each_once(list@, names(before), old(self)@)) by {
                assert forall|k: int| 0 <= k < before.len() implies old(self)@.contains_key(
                    #[trigger] names(before)[k],
                ) && list@[k]@ == (NoticeView {
                    to: old(self)@[names(before)[k]],
                    message: Signal::PoisonPill,
                }) by {
                    assert(before[k].0@ == names(before)[k]);
                }
            }
        }
        *self = Children::new();
        list
    }
}

/// Children are found by the names that they were added under. A name that no
/// child was added under, or whose child was taken out, has none.
pub proof fn law_children_are_found_by_name(
    children: &mut Children,
    name: &str,
    other: Seq<char>,
    child: Arc<AnyMailbox>,
    found: Option<&Arc<AnyMailbox>>,
    taken: Option<Arc<AnyMailbox>>,
    n: usize,
)
    ensures
        ({
            let before = old(children)@;
            let after = final(children)@;
            &&& call_ensures(Children::new, (), *old(children)) ==> !before.contains_key(other)
            &&& call_ensures(Children::get, (&*old(children), name), found) ==> {
                &&& found is Some <==> before.contains_key(name@)
                &&& found matches Some(c) ==> *c == before[name@]
            }
            &&& call_ensures(Children::insert, (children, name, child), ()) ==> {
                &&& after.contains_key(name@)
                &&& after[name@] == child
                &&& other != name@ ==> (after.contains_key(other) <==> before.contains_key(other))
                &&& other != name@ && before.contains_key(other) ==> after[other] == before[other]
            }
            &&& call_ensures(Children::remove, (children, name), taken) ==> {
                &&& !after.contains_key(name@)
                &&& taken is Some <==> before.contains_key(name@)
                &&& taken matches Some(c) ==> c == before[name@]
                &&& other != name@ ==> (after.contains_key(other) <==> before.contains_key(other))
                &&& other != name@ && before.contains_key(other) ==> after[other] == before[other]
            }
            &&& call_ensures(Children::len, (&*old(children),), n) ==> n == before.dom().len()
        }),
{
}

/// The child at an address is forgotten, and no other: the address of a child is
/// that of its parent with its name behind it.
pub proof fn law_addresses_are_those_of_children(
    children: &mut Children,
    own: &ActorAddress,
    address: &ActorAddress,
    name: Seq<char>,
)
    requires
        call_ensures(Children::remove_child_by_address, (children, own, address), ()),
    ensures
        ({
            let gone = address@.node_id == own@.node_id && address@.path == own@.path.push(name);
            &&& final(children)@.contains_key(name) <==> old(children)@.contains_key(name) && !gone
            &&& final(children)@.contains_key(name) ==> final(children)@[name]
                == old(children)@[name]
        }),
{
    if address@.path.len() > 0 {
        assert(address@.path =~= address@.path.drop_last().push(address@.path.last()));
    }
    assert(own@.path.push(name).drop_last() =~= own@.path);
}

/// A child that is stopped is told so, and forgotten; the others are not. Where
/// there is no such child, nothing happens.
pub proof fn law_stopped_children_are_told(
    children: &mut Children,
    name: &str,
    res: Result<(), ActorError>,
)
    requires
        call_ensures(Children::stop_child, (children, name), res),
    ensures
        !final(children)@.contains_key(name@),
        final(children)@ == old(children)@.remove(name@),
        !old(children)@.contains_key(name@) ==> res is Ok,
        old(children)@.contains_key(name@) ==> exists|
            m: SystemMessage,
            answer: Result<(), SystemMessage>,
        |
            m@ == Signal::PoisonPill && #[trigger] signalled(
                *old(children)@[name@].sys_tx,
                m,
                answer,
            ) && (res is Ok <==> answer is Ok),
{
}

/// When all children are stopped, each is told so exactly once, and nobody else
/// is. None is left.
pub proof fn law_all_children_are_told_once(
    children: &mut Children,
    list: Vec<Notice>,
    name: Seq<char>,
)
    requires
        call_ensures(Children::stop_all_children, (children,), list),
    ensures
        final(children)@.is_empty(),
        list@.len() == old(children)@.dom().len(),
        old(children)@.contains_key(name) ==> exists|k: int|
            0 <= k < list@.len() && (#[trigger] list@[k]).to == old(children)@[name],
        forall|k: int|
            0 <= k < list@.len() ==> (#[trigger] list@[k]).message@ == Signal::PoisonPill && exists|
                child: Seq<char>,
            | #[trigger]
                old(children)@.contains_key(child) && list@[k].to == old(children)@[child],
{
    let order = choose|order: Seq<Seq<char>>| #[trigger]
        stops_each_once(list@, order, old(children)@);
    order.unique_seq_to_set();
    assert(order.to_set() =~= old(children)@.dom());
    if old(children)@.contains_key(name) {
        assert(order.contains(name));
        let k = choose|k: int| 0 <= k < order.len() && order[k] == name;
        assert(list@[k]@.to == old(children)@[order[k]]);
        assert(list@[k].to == old(children)@[name]);
    }
    assert forall|k: int| 0 <= k < list@.len() implies (#[trigger] list@[k]).message@
        == Signal::PoisonPill && exists|child: Seq<char>| #[trigger]
        old(children)@.contains_key(child) && list@[k].to == old(children)@[child] by {
        assert(old(children)@.contains_key(order[k]));
        assert(list@[k]@.to == old(children)@[order[k]]);
    }
}

} // verus!
