//! The mailbox of one actor incarnation.

use crate::channel::{self, locked_around, signalled};
use crate::error::{ActorError, ActorFault};
use crate::incarnation::{drawn, is_version_4, IncarnationId};
use crate::message::{ActorMessage, ActorState, Message, Signal, SystemMessage};
use std::collections::VecDeque;
use std::sync::atomic::{AtomicBool, Ordering};
use std::sync::Arc;
use tokio::sync::mpsc;
use vstd::prelude::*;

verus! {

/// The part of a mailbox that does not depend on the message type: its id, the
/// way for system messages, and what the actor's runner publishes.
#[derive(Debug)]
pub struct AnyMailbox {
    /// Stays the same for clones of a ref; differs between incarnations.
    pub incarnation_id: IncarnationId,
    /// Where system messages are handed in.
    pub sys_tx: Arc<mpsc::UnboundedSender<SystemMessage>>,
    /// Where the actor stands, as its runner wrote it last.
    pub state: Arc<tokio::sync::RwLock<ActorState>>,
    /// Set to `false` by the runner when it exits.
    pub alive: Arc<AtomicBool>,
}

/// The way to one actor incarnation, shared by its refs and the registry. The
/// receiving halves are the runner's.
#[derive(Debug)]
#[verifier::reject_recursive_types(M)]
pub struct Mailbox<M: Message> {
    /// Where messages are handed in.
    pub msg_tx: Arc<mpsc::Sender<ActorMessage<M>>>,
    /// What does not depend on `M`.
    pub any: Arc<AnyMailbox>,
}

/// The flag was made with this value.
pub closed spec fn flag_made(flag: AtomicBool, value: bool) -> bool {
    call_ensures(AtomicBool::new, (value,), flag)
}

/// Make a flag.
pub fn new_flag(value: bool) -> (flag: Arc<AtomicBool>)
    ensures
        flag_made(*flag, value),
{
    Arc::new(AtomicBool::new(value))
}

/// The flag was read, and this was found.
pub closed spec fn flag_read(flag: AtomicBool, found: bool) -> bool {
    call_ensures(AtomicBool::load, (&flag, Ordering::Acquire), found)
}

/// The flag was written with this value.
pub closed spec fn flag_written(flag: AtomicBool, value: bool) -> bool {
    call_ensures(AtomicBool::store, (&flag, value, Ordering::Release), ())
}

/// What the sender of a system message learns from the channel's answer.
pub open spec fn signal_result(answer: Result<(), SystemMessage>) -> Result<(), ActorFault> {
    match answer {
        Ok(_) => Ok(()),
        Err(_) => Err(ActorFault::MessageDeliveryFailed("System channel closed"@)),
    }
}

/// The view of a result without a value.
pub open spec fn unit_result(res: Result<(), ActorError>) -> Result<(), ActorFault> {
    match res {
        Ok(_) => Ok(()),
        Err(e) => Err(e@),
    }
}

/// A message with this view was handed to the channel, and `res` is what its
/// sender was told.
pub open spec fn sent_system(
    tx: mpsc::UnboundedSender<SystemMessage>,
    message: Signal,
    res: Result<(), ActorError>,
) -> bool {
    exists|m: SystemMessage, answer: Result<(), SystemMessage>|
        m@ == message && #[trigger] signalled(tx, m, answer) && unit_result(res) == signal_result(
            answer,
        )
}

/// A message with this view was handed to the channel.
pub open spec fn told(tx: mpsc::UnboundedSender<SystemMessage>, message: Signal) -> bool {
    exists|res: Result<(), ActorError>| sent_system(tx, message, res)
}

/// `fresh` leads to the same actor as `was`, by the same channels and with the
/// same state and flag, under an id that was drawn for it.
pub open spec fn renewal_of<M: Message>(fresh: Mailbox<M>, was: Mailbox<M>) -> bool {
    &&& fresh.msg_tx == was.msg_tx
    &&& fresh.any.sys_tx == was.any.sys_tx
    &&& fresh.any.state == was.any.state
    &&& fresh.any.alive == was.any.alive
    &&& drawn(fresh.any.incarnation_id.bits)
    &&& is_version_4(fresh.any.incarnation_id.bits)
}

/// A signal that is to be sent to an actor, once.
pub struct Notice {
    pub to: Arc<AnyMailbox>,
    pub message: SystemMessage,
}

/// A notice over views.
pub struct NoticeView {
    pub to: Arc<AnyMailbox>,
    pub message: Signal,
}

impl View for Notice {
    type V = NoticeView;

    open spec fn view(&self) -> NoticeView {
        NoticeView { to: self.to, message: self.message@ }
    }
}

impl Notice {
    /// Send the signal.
    pub fn send(self) -> (res: Result<(), ActorError>)
        ensures
            sent_system(*self.to.sys_tx, self.message@, res),
    {
        self.to.send_system(self.message)
    }
}

/// Send each of the signals, once and in this order; say what became of each.
pub fn send_all(list: Vec<Notice>) -> (answers: Vec<Result<(), ActorError>>)
    ensures
        answers@.len() == list@.len(),
        forall|i: int|
            0 <= i < list@.len() ==> sent_system(
                *(#[trigger] list@[i]).to.sys_tx,
                list@[i]@.message,
                answers@[i],
            ),
{
    let ghost all = list@;
    let mut left: VecDeque<Notice> = VecDeque::new();
    let mut list: Vec<Notice> = list;
    while list.len() > 0
        invariant
            list@ + left@ == all,
        decreases list@.len(),
    {
        let ghost before = list@ + left@;
        match list.pop() {
            Some(notice) => left.push_front(notice),
            None => {},
        }
        assert(list@ + left@ =~= before);
    }
    assert(left@ =~= all);
    let mut answers: Vec<Result<(), ActorError>> = Vec::new();
    while left.len() > 0
        invariant
            answers@.len() + left@.len() == all.len(),
            left@ == all.skip(answers@.len() as int),
            forall|i: int|
                0 <= i < answers@.len() ==> sent_system(
                    *(#[trigger] all[i]).to.sys_tx,
                    all[i]@.message,
                    answers@[i],
                ),
        decreases left@.len(),
    {
        let ghost n = answers@.len() as int;
        match left.pop_front() {
            Some(notice) => {
                assert(notice == all[n]);
                assert(left@ =~= all.skip(n + 1));
                answers.push(notice.send());
            },
            None => {},
        }
    }
    answers
}

impl AnyMailbox {
    /// A mailbox part around channels that were opened elsewhere.
    pub fn new(
        incarnation_id: IncarnationId,
        sys_tx: mpsc::UnboundedSender<SystemMessage>,
        state: ActorState,
        alive: Arc<AtomicBool>,
    ) -> (mailbox: AnyMailbox)
        ensures
            mailbox.incarnation_id == incarnation_id,
            *mailbox.sys_tx == sys_tx,
            locked_around(*mailbox.state, state),
            mailbox.alive == alive,
    {
        AnyMailbox {
            incarnation_id,
            sys_tx: Arc::new(sys_tx),
            state: channel::share_state(state),
            alive,
        }
    }

    /// Hand in a system message.
    pub fn send_system(&self, message: SystemMessage) -> (res: Result<(), ActorError>)
        ensures
            sent_system(*self.sys_tx, message@, res),
            exists|answer: Result<(), SystemMessage>| #[trigger]
                signalled(*self.sys_tx, message, answer) && unit_result(res) == signal_result(answer),
    {
        match channel::signal(&self.sys_tx, message) {
            Ok(_) => Ok(()),
            Err(_) => Err(ActorError::MessageDeliveryFailed("System channel closed".to_owned())),
        }
    }

    /// Whether the actor's runner is still active.
    pub fn is_alive(&self) -> (alive: bool)
        ensures
            flag_read(*self.alive, alive),
    {
        self.alive.load(Ordering::Acquire)
    }

    /// Note that the actor's runner is active again.
    pub fn mark_alive(&self)
        ensures
            flag_written(*self.alive, true),
    {
        self.alive.store(true, Ordering::Release)
    }

    /// Note that the actor's runner has ended.
    pub fn mark_dead(&self)
        ensures
            flag_written(*self.alive, false),
    {
        self.alive.store(false, Ordering::Release)
    }

    /// The id of the incarnation.
    pub fn incarnation_id(&self) -> (id: IncarnationId)
        ensures
            id == self.incarnation_id,
    {
        self.incarnation_id
    }
}

impl<M: Message> Mailbox<M> {
    /// A mailbox around channels that were opened elsewhere.
    pub fn new(
        incarnation_id: IncarnationId,
        msg_tx: mpsc::Sender<ActorMessage<M>>,
        sys_tx: mpsc::UnboundedSender<SystemMessage>,
        state: ActorState,
        alive: Arc<AtomicBool>,
    ) -> (mailbox: Mailbox<M>)
        ensures
            *mailbox.msg_tx == msg_tx,
            mailbox.any.incarnation_id == incarnation_id,
            *mailbox.any.sys_tx == sys_tx,
            locked_around(*mailbox.any.state, state),
            mailbox.any.alive == alive,
    {
        Mailbox {
            msg_tx: Arc::new(msg_tx),
            any: Arc::new(AnyMailbox::new(incarnation_id, sys_tx, state, alive)),
        }
    }

    /// The mailbox of the next incarnation of the same actor: with an id of its
    /// own, over the same channels.
    pub fn renewed(&self) -> (fresh: Mailbox<M>)
        ensures
            renewal_of(fresh, *self),
    {
        Mailbox {
            msg_tx: Arc::clone(&self.msg_tx),
            any: Arc::new(
                AnyMailbox {
                    incarnation_id: IncarnationId::fresh(),
                    sys_tx: Arc::clone(&self.any.sys_tx),
                    state: Arc::clone(&self.any.state),
                    alive: Arc::clone(&self.any.alive),
                },
            ),
        }
    }
}

/// A flag is made, read and written with the value that is named.
pub proof fn law_flags_hold_what_is_written(
    flag: Arc<AtomicBool>,
    mailbox: &AnyMailbox,
    value: bool,
)
    ensures
        call_ensures(new_flag, (value,), flag) ==> call_ensures(AtomicBool::new, (value,), *flag),
        flag_made(*flag, value) ==> call_ensures(AtomicBool::new, (value,), *flag),
        call_ensures(AnyMailbox::is_alive, (mailbox,), value) ==> call_ensures(
            AtomicBool::load,
            (&*mailbox.alive, Ordering::Acquire),
            value,
        ),
        call_ensures(AnyMailbox::mark_alive, (mailbox,), ()) ==> call_ensures(
            AtomicBool::store,
            (&*mailbox.alive, true, Ordering::Release),
            (),
        ),
        call_ensures(AnyMailbox::mark_dead, (mailbox,), ()) ==> call_ensures(
            AtomicBool::store,
            (&*mailbox.alive, false, Ordering::Release),
            (),
        ),
        flag_written(*flag, value) ==> call_ensures(
            AtomicBool::store,
            (&*flag, value, Ordering::Release),
            (),
        ),
{
}

/// A signal is handed to the channel of its mailbox as it is. The sender is told
/// that it went out exactly where the channel took it, and that the channel is
/// closed otherwise.
pub proof fn law_signals_are_handed_on(
    mailbox: &AnyMailbox,
    message: SystemMessage,
    res: Result<(), ActorError>,
)
    requires
        call_ensures(AnyMailbox::send_system, (mailbox, message), res),
    ensures
        exists|answer: Result<(), SystemMessage>| #[trigger]
            signalled(*mailbox.sys_tx, message, answer) && (res is Ok <==> answer is Ok),
        res matches Err(e) ==> e@ == ActorFault::MessageDeliveryFailed("System channel closed"@),
{
    let answer = choose|answer: Result<(), SystemMessage>| #[trigger]
        signalled(*mailbox.sys_tx, message, answer) && unit_result(res) == signal_result(answer);
    assert(signalled(*mailbox.sys_tx, message, answer));
}

/// What was sent was handed to the channel, and what its sender was told is what
/// the channel said.
pub proof fn law_sent_signals_reach_their_channel(
    tx: mpsc::UnboundedSender<SystemMessage>,
    message: Signal,
    res: Result<(), ActorError>,
)
    requires
        sent_system(tx, message, res),
    ensures
        exists|m: SystemMessage, answer: Result<(), SystemMessage>|
            m@ == message && #[trigger] signalled(tx, m, answer) && (res is Ok <==> answer is Ok),
        res matches Err(e) ==> e@ == ActorFault::MessageDeliveryFailed("System channel closed"@),
{
}

/// A notice is sent to the mailbox that it is for, and all notices of a list are,
/// each with its own answer.
pub proof fn law_notices_go_where_they_are_for(
    notice: Notice,
    res: Result<(), ActorError>,
    list: Vec<Notice>,
    answers: Vec<Result<(), ActorError>>,
    i: int,
)
    ensures
        notice@.to == notice.to,
        notice@.message == notice.message@,
        call_ensures(Notice::send, (notice,), res) ==> exists|
            m: SystemMessage,
            answer: Result<(), SystemMessage>,
        |
            m@ == notice.message@ && #[trigger] signalled(*notice.to.sys_tx, m, answer) && (res
                is Ok <==> answer is Ok),
        call_ensures(send_all, (list,), answers) ==> answers@.len() == list@.len() && (0 <= i
            < list@.len() ==> exists|m: SystemMessage, answer: Result<(), SystemMessage>|
            m@ == list@[i].message@ && #[trigger] signalled(*list@[i].to.sys_tx, m, answer) && (
            answers@[i] is Ok <==> answer is Ok)),
{
    if call_ensures(send_all, (list,), answers) && 0 <= i < list@.len() {
        assert(sent_system(*list@[i].to.sys_tx, list@[i]@.message, answers@[i]));
    }
}

/// A mailbox is made of what it is given.
pub proof fn law_mailboxes_are_made_of_what_is_given<M: Message>(
    id: IncarnationId,
    msg_tx: mpsc::Sender<ActorMessage<M>>,
    sys_tx: mpsc::UnboundedSender<SystemMessage>,
    state: ActorState,
    alive: Arc<AtomicBool>,
    mailbox: Mailbox<M>,
)
    requires
        call_ensures(Mailbox::<M>::new, (id, msg_tx, sys_tx, state, alive), mailbox),
    ensures
        *mailbox.msg_tx == msg_tx,
        mailbox.any.incarnation_id == id,
        *mailbox.any.sys_tx == sys_tx,
        locked_around(*mailbox.any.state, state),
        mailbox.any.alive == alive,
{
}

/// The next incarnation has the channels, the state and the flag of the one
/// before it. All that is new is its id, which was drawn at random.
pub proof fn law_renewal_changes_only_the_id<M: Message>(was: &Mailbox<M>, fresh: Mailbox<M>)
    requires
        call_ensures(Mailbox::<M>::renewed, (was,), fresh) || renewal_of(fresh, *was),
    ensures
        fresh.msg_tx == was.msg_tx,
        fresh.any.sys_tx == was.any.sys_tx,
        fresh.any.state == was.any.state,
        fresh.any.alive == was.any.alive,
        drawn(fresh.any.incarnation_id.bits),
        is_version_4(fresh.any.incarnation_id.bits),
{
}

/// The part of a mailbox that does not depend on its messages is made of what it
/// is given, and tells its id.
pub proof fn law_mailbox_parts_are_made_of_what_is_given(
    id: IncarnationId,
    sys_tx: mpsc::UnboundedSender<SystemMessage>,
    state: ActorState,
    alive: Arc<AtomicBool>,
    mailbox: &AnyMailbox,
    told_id: IncarnationId,
)
    ensures
        call_ensures(AnyMailbox::new, (id, sys_tx, state, alive), *mailbox)
            ==> mailbox.incarnation_id == id && *mailbox.sys_tx == sys_tx && locked_around(
            *mailbox.state,
            state,
        ) && mailbox.alive == alive,
        call_ensures(AnyMailbox::incarnation_id, (mailbox,), told_id) ==> told_id
            == mailbox.incarnation_id,
{
}

} // verus!
