//! The command actor as a state machine. The actor is the one owner of the
//! session: it takes one command at a time, and for each event that the
//! session or the reply channel produces it decides the next action. Whoever
//! runs the machine performs the actions and reports their outcomes.

use vstd::prelude::*;
use crate::command::{Command, CommandError, KeyValue, Operation};

verus! {

/// The kind of the command being handled.
#[derive(PartialEq, Eq, Structural, Clone, Copy, Debug)]
pub enum Kind {
    Get,
    Put,
    Delete,
    Subscribe,
    Zid,
    Peers,
    Routers,
}

/// What to do once an item has been pushed onto the reply channel.
#[derive(PartialEq, Eq, Structural, Clone, Copy, Debug)]
pub enum After {
    Finish,
    Next,
    Poll,
}

/// Where the actor stands.
#[derive(PartialEq, Eq, Structural, Clone, Copy, Debug)]
pub enum Phase {
    /// Waiting for the next command.
    Idle,
    /// Waiting for the session call that opens the command.
    Calling,
    /// Waiting for the next result of a query or an enumeration.
    Pulling,
    /// Waiting for the reply channel to take an item.
    Sending(After),
    /// Waiting for the next poll of a live subscription.
    Polling,
}

/// One item pushed onto a reply channel.
pub enum Reply {
    /// A key/value result of a query or a subscription.
    Entry(KeyValue),
    /// A write or a removal succeeded.
    Done,
    /// An identifier: the session's own, or a peer's or a router's.
    Text(String),
    /// The command failed.
    Failure(CommandError),
}

/// What happened since the last action.
pub enum Event {
    /// A command arrived on the inbound queue.
    Arrived(Command),
    /// The session call that opens the command succeeded.
    Dispatched,
    /// The session call that opens the command failed, for this cause.
    Failed(String),
    /// The session's identifier was read.
    Identified(String),
    /// A query result, or a sample taken from the subscription.
    Received(KeyValue),
    /// The next identifier of an enumeration.
    ReceivedId(String),
    /// A responder answered the query with this error.
    ReplyFailed(String),
    /// The query or the enumeration has no more results.
    Exhausted,
    /// The subscription has no sample ready.
    Empty,
    /// The consumer has dropped the reply channel.
    Closed,
    /// The subscription source has ended.
    Ended,
    /// The reply channel took the item.
    Sent,
    /// The reply channel refused the item: its consumer is gone.
    Rejected,
}

/// What the actor asks to be done next.
pub enum Action {
    /// Query the session on a selector.
    Query(String),
    /// Write a payload under a key expression, as plain text.
    Write(String, Vec<u8>),
    /// Remove a key expression.
    Remove(String),
    /// Declare a subscriber on a key pattern.
    Declare(String),
    /// Read the session's identifier.
    Identify,
    /// Enumerate the connected peers.
    ListPeers,
    /// Enumerate the connected routers.
    ListRouters,
    /// Take the next result of the query or the enumeration.
    Next,
    /// Check the reply channel, then try to take a sample from the subscription.
    Poll,
    /// Sleep one poll interval, then poll.
    Wait,
    /// Push an item onto the reply channel.
    Send(Reply),
    /// Undeclare the subscriber: the command is over.
    Release,
    /// Close the reply channel: the command is over.
    Finish,
}

/// A mark in the record of the actor's work: command `n` started or ended.
pub ghost enum Mark {
    Start(nat),
    End(nat),
}

/// The command actor. It imposes no timeout of its own on a session call: a
/// call that hangs holds the actor, and every command queued behind it, until
/// the session's own timeout ends it.
pub struct Actor {
    pub phase: Phase,
    pub kind: Kind,
    /// The key expression or selector of the command, where it has one.
    pub key: Option<String>,
    /// Every start and end of a command, in order.
    pub log: Ghost<Seq<Mark>>,
    /// The items pushed for the current (or, when idle, the last) command.
    pub replies: Ghost<Seq<Reply>>,
    /// The results and samples received for that command.
    pub received: Ghost<Seq<KeyValue>>,
}

/// Put, Delete and Zid end after exactly one reply.
pub open spec fn is_single_reply(k: Kind) -> bool {
    k == Kind::Put || k == Kind::Delete || k == Kind::Zid
}

/// Get, Peers and Routers forward a finite sequence of results.
pub open spec fn is_bounded(k: Kind) -> bool {
    k == Kind::Get || k == Kind::Peers || k == Kind::Routers
}

/// The session call of a kind, for error messages.
pub open spec fn operation_of(k: Kind) -> Operation {
    match k {
        Kind::Put => Operation::Write,
        Kind::Delete => Operation::Remove,
        Kind::Subscribe => Operation::Subscribe,
        _ => Operation::Query,
    }
}

/// Each key/value as a reply entry.
pub open spec fn entries(s: Seq<KeyValue>) -> Seq<Reply> {
    s.map_values(|kv: KeyValue| Reply::Entry(kv))
}

/// The mark at position `k` of the record of a serial actor: command `k / 2`
/// starts at the even positions and ends at the odd ones.
pub open spec fn mark_at(k: int) -> Mark {
    if k % 2 == 0 {
        Mark::Start((k / 2) as nat)
    } else {
        Mark::End((k / 2) as nat)
    }
}

impl Actor {
    /// The actor's invariant.
    pub open spec fn wf(&self) -> bool {
        &&& forall|k: int| 0 <= k < self.log@.len() ==> self.log@[k] == mark_at(k)
        &&& (self.phase == Phase::Idle) == (self.log@.len() % 2 == 0)
        &&& self.kind != Kind::Zid && self.kind != Kind::Peers && self.kind != Kind::Routers
            ==> self.key is Some
        &&& self.phase == Phase::Calling ==> self.replies@.len() == 0 && self.received@.len() == 0
        &&& is_single_reply(self.kind) ==> {
            &&& self.phase != Phase::Pulling && self.phase != Phase::Polling
            &&& self.phase is Sending ==> self.phase == Phase::Sending(After::Finish)
                && self.replies@.len() == 1
            &&& self.phase == Phase::Idle && self.log@.len() > 0 ==> self.replies@.len() == 1
        }
        &&& is_bounded(self.kind) ==> {
            &&& self.phase != Phase::Polling && self.phase != Phase::Sending(After::Poll)
            &&& self.kind == Kind::Get && (self.phase == Phase::Pulling || self.phase
                == Phase::Sending(After::Next)) ==> self.replies@ == entries(self.received@)
        }
        &&& self.kind == Kind::Subscribe ==> {
            &&& self.phase != Phase::Pulling && self.phase != Phase::Sending(After::Next)
            &&& self.phase == Phase::Polling || self.phase == Phase::Sending(After::Poll)
                ==> self.replies@ == entries(self.received@)
        }
    }

    /// The actor after it has taken command number `log.len() / 2`.
    pub open spec fn begin(self, kind: Kind, key: Option<String>) -> Actor {
        Actor {
            phase: Phase::Calling,
            kind,
            key,
            log: Ghost(self.log@.push(Mark::Start((self.log@.len() / 2) as nat))),
            replies: Ghost(Seq::empty()),
            received: Ghost(Seq::empty()),
        }
    }

    /// The actor once the current command is over.
    pub open spec fn end(self) -> Actor {
        Actor {
            phase: Phase::Idle,
            log: Ghost(self.log@.push(Mark::End((self.log@.len() / 2) as nat))),
            ..self
        }
    }

    /// The actor pushing `r`, then going on as `after` says.
    pub open spec fn push(self, r: Reply, after: After) -> Actor {
        Actor { phase: Phase::Sending(after), replies: Ghost(self.replies@.push(r)), ..self }
    }

    /// The actor pushing a received key/value.
    pub open spec fn forward(self, kv: KeyValue, after: After) -> Actor {
        Actor {
            phase: Phase::Sending(after),
            replies: Ghost(self.replies@.push(Reply::Entry(kv))),
            received: Ghost(self.received@.push(kv)),
            ..self
        }
    }

    /// The actor in another phase.
    pub open spec fn moved(self, phase: Phase) -> Actor {
        Actor { phase, ..self }
    }

    /// Whether the actor can take `ev` in its present phase.
    pub open spec fn expects(self, ev: Event) -> bool {
        match self.phase {
            Phase::Idle => ev is Arrived,
            Phase::Calling => match self.kind {
                Kind::Zid => ev is Identified,
                Kind::Peers | Kind::Routers => ev is Dispatched,
                _ => ev is Dispatched || ev is Failed,
            },
            Phase::Pulling => if self.kind == Kind::Get {
                ev is Received || ev is ReplyFailed || ev is Exhausted
            } else {
                ev is ReceivedId || ev is Exhausted
            },
            Phase::Sending(_) => ev is Sent || ev is Rejected,
            Phase::Polling => ev is Received || ev is Empty || ev is Closed || ev is Ended,
        }
    }

    /// The next state and the action for an event that the actor expects.
    pub open spec fn transition(self, ev: Event) -> (Actor, Action) {
        match ev {
            Event::Arrived(cmd) => match cmd {
                Command::Get { selector } => (
                    self.begin(Kind::Get, Some(selector)),
                    Action::Query(selector),
                ),
                Command::Put { keyexpr, payload } => (
                    self.begin(Kind::Put, Some(keyexpr)),
                    Action::Write(keyexpr, payload),
                ),
                Command::Delete { keyexpr } => (
                    self.begin(Kind::Delete, Some(keyexpr)),
                    Action::Remove(keyexpr),
                ),
                Command::Subscribe { keyexpr } => (
                    self.begin(Kind::Subscribe, Some(keyexpr)),
                    Action::Declare(keyexpr),
                ),
                Command::Zid => (self.begin(Kind::Zid, None), Action::Identify),
                Command::Peers => (self.begin(Kind::Peers, None), Action::ListPeers),
                Command::Routers => (self.begin(Kind::Routers, None), Action::ListRouters),
            },
            Event::Dispatched => if self.kind == Kind::Put || self.kind == Kind::Delete {
                (self.push(Reply::Done, After::Finish), Action::Send(Reply::Done))
            } else if self.kind == Kind::Subscribe {
                (self.moved(Phase::Polling), Action::Poll)
            } else {
                (self.moved(Phase::Pulling), Action::Next)
            },
            Event::Failed(cause) => {
                let r = Reply::Failure(
                    CommandError::Network {
                        operation: operation_of(self.kind),
                        key: self.key.unwrap(),
                        cause,
                    },
                );
                (self.push(r, After::Finish), Action::Send(r))
            },
            Event::Identified(zid) => (
                self.push(Reply::Text(zid), After::Finish),
                Action::Send(Reply::Text(zid)),
            ),
            Event::Received(kv) => if self.phase == Phase::Polling {
                (self.forward(kv, After::Poll), Action::Send(Reply::Entry(kv)))
            } else {
                (self.forward(kv, After::Next), Action::Send(Reply::Entry(kv)))
            },
            Event::ReceivedId(id) => (
                self.push(Reply::Text(id), After::Next),
                Action::Send(Reply::Text(id)),
            ),
            Event::ReplyFailed(cause) => (
                self.push(Reply::Failure(CommandError::Reply(cause)), After::Finish),
                Action::Send(Reply::Failure(CommandError::Reply(cause))),
            ),
            Event::Exhausted => (self.end(), Action::Finish),
            Event::Empty => (self, Action::Wait),
            Event::Closed | Event::Ended => (self.end(), Action::Release),
            Event::Sent => match self.phase {
                Phase::Sending(After::Next) => (self.moved(Phase::Pulling), Action::Next),
                Phase::Sending(After::Poll) => (self.moved(Phase::Polling), Action::Poll),
                _ => (self.end(), Action::Finish),
            },
            Event::Rejected => if self.kind == Kind::Subscribe {
                (self.end(), Action::Release)
            } else {
                (self.end(), Action::Finish)
            },
        }
    }
}

/// The kind of a command.
pub open spec fn kind_of(c: Command) -> Kind {
    match c {
        Command::Get { .. } => Kind::Get,
        Command::Put { .. } => Kind::Put,
        Command::Delete { .. } => Kind::Delete,
        Command::Subscribe { .. } => Kind::Subscribe,
        Command::Zid => Kind::Zid,
        Command::Peers => Kind::Peers,
        Command::Routers => Kind::Routers,
    }
}

/// The kind of a command.
pub fn command_kind(c: &Command) -> (k: Kind)
    ensures
        k == kind_of(*c),
{
    match c {
        Command::Get { .. } => Kind::Get,
        Command::Put { .. } => Kind::Put,
        Command::Delete { .. } => Kind::Delete,
        Command::Subscribe { .. } => Kind::Subscribe,
        Command::Zid => Kind::Zid,
        Command::Peers => Kind::Peers,
        Command::Routers => Kind::Routers,
    }
}

/// The session call of a kind, for error messages.
fn operation(k: Kind) -> (op: Operation)
    ensures
        op == operation_of(k),
{
    match k {
        Kind::Put => Operation::Write,
        Kind::Delete => Operation::Remove,
        Kind::Subscribe => Operation::Subscribe,
        _ => Operation::Query,
    }
}

impl Actor {
    /// An idle actor that has handled nothing yet.
    pub fn new() -> (a: Actor)
        ensures
            a.wf(),
            a.phase == Phase::Idle,
            a.log@.len() == 0,
    {
        Actor {
            phase: Phase::Idle,
            kind: Kind::Zid,
            key: None,
            log: Ghost(Seq::empty()),
            replies: Ghost(Seq::empty()),
            received: Ghost(Seq::empty()),
        }
    }

    /// Whether the actor waits for the next command.
    pub fn is_idle(&self) -> (r: bool)
        ensures
            r == (self.phase == Phase::Idle),
    {
        self.phase == Phase::Idle
    }

    /// Whether the actor can take `ev` in its present phase.
    pub fn can_take(&self, ev: &Event) -> (r: bool)
        ensures
            r == self.expects(*ev),
    {
        match self.phase {
            Phase::Idle => matches!(ev, Event::Arrived(_)),
            Phase::Calling => match self.kind {
                Kind::Zid => matches!(ev, Event::Identified(_)),
                Kind::Peers | Kind::Routers => matches!(ev, Event::Dispatched),
                _ => matches!(ev, Event::Dispatched | Event::Failed(_)),
            },
            Phase::Pulling => if self.kind == Kind::Get {
                matches!(ev, Event::Received(_) | Event::ReplyFailed(_) | Event::Exhausted)
            } else {
                matches!(ev, Event::ReceivedId(_) | Event::Exhausted)
            },
            Phase::Sending(_) => matches!(ev, Event::Sent | Event::Rejected),
            Phase::Polling => matches!(
                ev,
                Event::Received(_) | Event::Empty | Event::Closed | Event::Ended
            ),
        }
    }

    fn take_command(&mut self, kind: Kind, key: Option<String>)
        ensures
            *final(self) == old(self).begin(kind, key),
    {
        self.log = Ghost(self.log@.push(Mark::Start((self.log@.len() / 2) as nat)));
        self.replies = Ghost(Seq::empty());
        self.received = Ghost(Seq::empty());
        self.phase = Phase::Calling;
        self.kind = kind;
        self.key = key;
    }

    fn close_command(&mut self)
        ensures
            *final(self) == old(self).end(),
    {
        self.log = Ghost(self.log@.push(Mark::End((self.log@.len() / 2) as nat)));
        self.phase = Phase::Idle;
    }

    /// Takes one event and returns the next action: the whole behaviour of
    /// the actor is `transition`, and the invariant is kept.
    pub fn step(&mut self, ev: Event) -> (a: Action)
        requires
            old(self).wf(),
            old(self).expects(ev),
        ensures
            final(self).wf(),
            (*final(self), a) == old(self).transition(ev),
            ev matches Event::Arrived(cmd) ==> final(self).kind == kind_of(cmd),
    {
        proof {
            lemma_step_keeps_wf(*self, ev);
        }
        match ev {
            Event::Arrived(cmd) => match cmd {
                Command::Get { selector } => {
                    self.take_command(Kind::Get, Some(selector.clone()));
                    Action::Query(selector)
                },
                Command::Put { keyexpr, payload } => {
                    self.take_command(Kind::Put, Some(keyexpr.clone()));
                    Action::Write(keyexpr, payload)
                },
                Command::Delete { keyexpr } => {
                    self.take_command(Kind::Delete, Some(keyexpr.clone()));
                    Action::Remove(keyexpr)
                },
                Command::Subscribe { keyexpr } => {
                    self.take_command(Kind::Subscribe, Some(keyexpr.clone()));
                    Action::Declare(keyexpr)
                },
                Command::Zid => {
                    self.take_command(Kind::Zid, None);
                    Action::Identify
                },
                Command::Peers => {
                    self.take_command(Kind::Peers, None);
                    Action::ListPeers
                },
                Command::Routers => {
                    self.take_command(Kind::Routers, None);
                    Action::ListRouters
                },
            },
            Event::Dispatched => {
                if self.kind == Kind::Put || self.kind == Kind::Delete {
                    self.replies = Ghost(self.replies@.push(Reply::Done));
                    self.phase = Phase::Sending(After::Finish);
                    Action::Send(Reply::Done)
                } else if self.kind == Kind::Subscribe {
                    self.phase = Phase::Polling;
                    Action::Poll
                } else {
                    self.phase = Phase::Pulling;
                    Action::Next
                }
            },
            Event::Failed(cause) => {
                let key = match &self.key {
                    Some(k) => k.clone(),
                    None => {
                        proof {
                            assert(false);
                        }
                        String::new()
                    },
                };
                let r = Reply::Failure(
                    CommandError::Network { operation: operation(self.kind), key, cause },
                );
                self.replies = Ghost(self.replies@.push(r));
                self.phase = Phase::Sending(After::Finish);
                Action::Send(r)
            },
            Event::Identified(zid) => {
                self.replies = Ghost(self.replies@.push(Reply::Text(zid)));
                self.phase = Phase::Sending(After::Finish);
                Action::Send(Reply::Text(zid))
            },
            Event::Received(kv) => {
                self.replies = Ghost(self.replies@.push(Reply::Entry(kv)));
                self.received = Ghost(self.received@.push(kv));
                if self.phase == Phase::Polling {
                    self.phase = Phase::Sending(After::Poll);
                } else {
                    self.phase = Phase::Sending(After::Next);
                }
                Action::Send(Reply::Entry(kv))
            },
            Event::ReceivedId(id) => {
                self.replies = Ghost(self.replies@.push(Reply::Text(id)));
                self.phase = Phase::Sending(After::Next);
                Action::Send(Reply::Text(id))
            },
            Event::ReplyFailed(cause) => {
                let r = Reply::Failure(CommandError::Reply(cause));
                self.replies = Ghost(self.replies@.push(r));
                self.phase = Phase::Sending(After::Finish);
                Action::Send(r)
            },
            Event::Exhausted => {
                self.close_command();
                Action::Finish
            },
            Event::Empty => Action::Wait,
            Event::Closed | Event::Ended => {
                self.close_command();
                Action::Release
            },
            Event::Sent => match self.phase {
                Phase::Sending(After::Next) => {
                    self.phase = Phase::Pulling;
                    Action::Next
                },
                Phase::Sending(After::Poll) => {
                    self.phase = Phase::Polling;
                    Action::Poll
                },
                _ => {
                    self.close_command();
                    Action::Finish
                },
            },
            Event::Rejected => {
                self.close_command();
                if self.kind == Kind::Subscribe {
                    Action::Release
                } else {
                    Action::Finish
                }
            },
        }
    }
}

/// Every step keeps the actor's invariant.
pub proof fn lemma_step_keeps_wf(a: Actor, ev: Event)
    requires
        a.wf(),
        a.expects(ev),
    ensures
        a.transition(ev).0.wf(),
{
    let b = a.transition(ev).0;
    assert forall|k: int| 0 <= k < b.log@.len() implies b.log@[k] == mark_at(k) by {
        if k == a.log@.len() {
            if a.phase == Phase::Idle {
                assert(k % 2 == 0);
            } else {
                assert(k % 2 == 1);
            }
        }
    }
    if a.phase == Phase::Calling {
        assert(a.replies@ =~= entries(a.received@));
    }
    if let Event::Received(kv) = ev {
        assert(entries(a.received@.push(kv)) =~= entries(a.received@).push(Reply::Entry(kv)));
    }
}

/// Commands are handled one at a time, in their order of arrival: of two
/// commands that the actor has started, the earlier one ended before the later
/// one started.
pub proof fn lemma_serialized(a: Actor, p: int, q: int, i: nat, j: nat)
    requires
        a.wf(),
        0 <= p < q < a.log@.len(),
        a.log@[p] == Mark::Start(i),
        a.log@[q] == Mark::Start(j),
    ensures
        i < j,
        p + 1 < q,
        a.log@[p + 1] == Mark::End(i),
{
    assert(a.log@[p] == mark_at(p));
    assert(a.log@[q] == mark_at(q));
    assert(a.log@[p + 1] == mark_at(p + 1));
}

/// Put, Delete and Zid push exactly one item, success or failure: once such a
/// command is over, one reply has been pushed for it.
pub proof fn lemma_single_reply(a: Actor)
    requires
        a.wf(),
        a.phase == Phase::Idle,
        a.log@.len() > 0,
        is_single_reply(a.kind),
    ensures
        a.replies@.len() == 1,
{
}

/// A query that yields no result ends the command with no item pushed: zero
/// results are no error.
pub proof fn lemma_get_without_results(a: Actor)
    requires
        a.wf(),
        a.kind == Kind::Get,
        a.phase == Phase::Pulling,
        a.received@.len() == 0,
    ensures
        a.expects(Event::Exhausted),
        a.transition(Event::Exhausted).1 is Finish,
        a.transition(Event::Exhausted).0.phase == Phase::Idle,
        a.transition(Event::Exhausted).0.replies@.len() == 0,
{
}

/// The results of a query are pushed unchanged, in the order they came.
pub proof fn lemma_query_results_forwarded(a: Actor)
    requires
        a.wf(),
        a.kind == Kind::Get,
        a.phase == Phase::Pulling,
    ensures
        a.replies@ == entries(a.received@),
{
}

/// The samples of a live subscription are pushed unchanged, in the order the
/// actor took them.
pub proof fn lemma_subscription_in_order(a: Actor, kv: KeyValue)
    requires
        a.wf(),
        a.kind == Kind::Subscribe,
        a.phase == Phase::Polling,
    ensures
        a.replies@ == entries(a.received@),
        a.transition(Event::Received(kv)).1 == Action::Send(Reply::Entry(kv)),
        a.transition(Event::Received(kv)).0.received@ == a.received@.push(kv),
        a.transition(Event::Received(kv)).0.replies@ == entries(a.received@.push(kv)),
{
    assert(entries(a.received@.push(kv)) =~= entries(a.received@).push(Reply::Entry(kv)));
}

/// A live subscription whose consumer has dropped the reply channel ends at
/// the next poll: the subscriber is released and the actor is idle again.
pub proof fn lemma_subscription_cancelled(a: Actor)
    requires
        a.wf(),
        a.kind == Kind::Subscribe,
        a.phase == Phase::Polling,
    ensures
        a.expects(Event::Closed),
        a.transition(Event::Closed).1 is Release,
        a.transition(Event::Closed).0.phase == Phase::Idle,
        a.transition(Event::Closed).0.wf(),
{
    let b = a.transition(Event::Closed).0;
    assert forall|k: int| 0 <= k < b.log@.len() implies b.log@[k] == mark_at(k) by {
        if k == a.log@.len() {
            assert(k % 2 == 1);
        }
    }
}

/// A payload is written exactly as given, whatever bytes it holds.
pub proof fn lemma_payload_unchanged(a: Actor, keyexpr: String, payload: Vec<u8>)
    requires
        a.wf(),
        a.phase == Phase::Idle,
    ensures
        a.expects(Event::Arrived(Command::Put { keyexpr, payload })),
        a.transition(Event::Arrived(Command::Put { keyexpr, payload })).1 == Action::Write(
            keyexpr,
            payload,
        ),
{
}

/// The session's identifier is pushed exactly as the session gave it.
pub proof fn lemma_zid_unchanged(a: Actor, zid: String)
    requires
        a.wf(),
        a.kind == Kind::Zid,
        a.phase == Phase::Calling,
    ensures
        a.expects(Event::Identified(zid)),
        a.transition(Event::Identified(zid)).1 == Action::Send(Reply::Text(zid)),
        a.transition(Event::Identified(zid)).0.replies@ == seq![Reply::Text(zid)],
{
    assert(a.replies@.push(Reply::Text(zid)) =~= seq![Reply::Text(zid)]);
}

} // verus!
