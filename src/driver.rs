//! The front end's side of a command: how the items of a reply channel are
//! shown, and what the closing of the channel means for each kind of command.

use vstd::prelude::*;
use vstd::utf8::{decode_utf8, encode_utf8, encode_utf8_decode_utf8, encode_utf8_valid_utf8, valid_utf8};
use crate::actor::{
    entries, is_bounded, is_single_reply, lemma_step_keeps_wf, Action, Actor, Event, Kind, Phase, Reply,
};
use crate::command::{CommandError, KeyValue, Operation};
use crate::text::decode_text;

verus! {

/// What the front end shows for one reply item, or for the end of a command.
pub enum Show {
    /// A key expression and its payload as text.
    Entry(String, String),
    /// A line of text: an identifier.
    Text(String),
    /// The write or removal succeeded.
    Done,
    /// A query or an enumeration ended without any result.
    NoResults(Kind),
    /// Nothing more to show.
    Nothing,
}

/// The text shown when a command of kind `k` ended without any result.
pub open spec fn notice_of(k: Kind) -> Seq<char> {
    match k {
        Kind::Peers => "no peers found"@,
        Kind::Routers => "no routers found"@,
        _ => "no replies received"@,
    }
}

/// The text shown when a command of kind `k` ended without any result.
pub fn no_results_notice(k: Kind) -> (r: String)
    ensures
        r@ == notice_of(k),
{
    match k {
        Kind::Peers => "no peers found".to_owned(),
        Kind::Routers => "no routers found".to_owned(),
        _ => "no replies received".to_owned(),
    }
}

/// The payload of `kv` as text: its bytes must be valid UTF-8.
pub fn payload_text(kv: &KeyValue) -> (r: Result<String, CommandError>)
    ensures
        valid_utf8(kv.payload@) ==> (r matches Ok(t) && t@ == decode_utf8(kv.payload@)),
        !valid_utf8(kv.payload@) ==> r == Err::<String, CommandError>(CommandError::InvalidPayload),
{
    match decode_text(&kv.payload) {
        Some(t) => Ok(t),
        None => Err(CommandError::InvalidPayload),
    }
}

/// Whether `r` is what the front end shows for the reply item `item`: an
/// entry with its payload as text, an identifier, a success, or the failure
/// that ends the command.
pub open spec fn shows(item: Reply, r: Result<Show, CommandError>) -> bool {
    match item {
        Reply::Entry(kv) => if valid_utf8(kv.payload@) {
            r matches Ok(Show::Entry(k, t)) && k == kv.keyexpr && t@ == decode_utf8(kv.payload@)
        } else {
            r == Err::<Show, CommandError>(CommandError::InvalidPayload)
        },
        Reply::Text(s) => r == Ok::<Show, CommandError>(Show::Text(s)),
        Reply::Done => r == Ok::<Show, CommandError>(Show::Done),
        Reply::Failure(e) => r == Err::<Show, CommandError>(e),
    }
}

/// The front end's reading of one reply channel.
pub struct Drain {
    /// The kind of the command whose replies are read.
    pub kind: Kind,
    /// Whether an item has been read.
    pub seen: bool,
}

impl Drain {
    /// What closing the channel means, given the items read so far: a
    /// single-reply command that got no reply failed; a query or an
    /// enumeration that got none says so; otherwise nothing is left to show.
    pub open spec fn closed_outcome(self) -> Result<Show, CommandError> {
        if self.seen {
            Ok(Show::Nothing)
        } else {
            match self.kind {
                Kind::Put => Err(CommandError::NoReply(Operation::Write)),
                Kind::Delete => Err(CommandError::NoReply(Operation::Remove)),
                Kind::Zid => Err(CommandError::NoZid),
                Kind::Subscribe => Ok(Show::Nothing),
                _ => Ok(Show::NoResults(self.kind)),
            }
        }
    }

    /// Starts reading the replies of a command of kind `kind`.
    pub fn new(kind: Kind) -> (d: Drain)
        ensures
            d.kind == kind,
            !d.seen,
    {
        Drain { kind, seen: false }
    }

    /// Whether to wait for another item: a single-reply command reads one.
    pub fn wants_more(&self) -> (r: bool)
        ensures
            r == !(is_single_reply(self.kind) && self.seen),
    {
        !(self.seen && (self.kind == Kind::Put || self.kind == Kind::Delete || self.kind
            == Kind::Zid))
    }

    /// Reads one item. An `Err` ends the command with that failure.
    pub fn take(&mut self, item: Reply) -> (r: Result<Show, CommandError>)
        ensures
            final(self).kind == old(self).kind,
            final(self).seen,
            shows(item, r),
    {
        self.seen = true;
        match item {
            Reply::Entry(kv) => match payload_text(&kv) {
                Ok(t) => Ok(Show::Entry(kv.keyexpr, t)),
                Err(e) => Err(e),
            },
            Reply::Text(s) => Ok(Show::Text(s)),
            Reply::Done => Ok(Show::Done),
            Reply::Failure(e) => Err(e),
        }
    }

    /// The channel has closed.
    pub fn close(&self) -> (r: Result<Show, CommandError>)
        ensures
            r == self.closed_outcome(),
    {
        if self.seen {
            Ok(Show::Nothing)
        } else {
            match self.kind {
                Kind::Put => Err(CommandError::NoReply(Operation::Write)),
                Kind::Delete => Err(CommandError::NoReply(Operation::Remove)),
                Kind::Zid => Err(CommandError::NoZid),
                Kind::Subscribe => Ok(Show::Nothing),
                _ => Ok(Show::NoResults(self.kind)),
            }
        }
    }
}

/// A query or an enumeration that finds nothing is no failure: its reply
/// channel closes with no item pushed, and the front end shows that no result
/// came, not an error.
pub proof fn lemma_zero_is_valid(a: Actor)
    requires
        a.wf(),
        is_bounded(a.kind),
        a.phase == Phase::Pulling,
        a.replies@.len() == 0,
    ensures
        a.transition(Event::Exhausted).1 is Finish,
        a.transition(Event::Exhausted).0.replies@.len() == 0,
        (Drain { kind: a.kind, seen: false }).closed_outcome() == Ok::<Show, CommandError>(
            Show::NoResults(a.kind),
        ),
{
}

/// A payload that is not valid text still passes through the actor unchanged;
/// only showing it fails, and the actor goes on in a good state.
pub proof fn lemma_payload_opacity(a: Actor, kv: KeyValue, shown: Result<Show, CommandError>)
    requires
        a.wf(),
        (a.kind == Kind::Get && a.phase == Phase::Pulling) || (a.kind == Kind::Subscribe
            && a.phase == Phase::Polling),
        !valid_utf8(kv.payload@),
        shows(Reply::Entry(kv), shown),
    ensures
        a.transition(Event::Received(kv)).1 == Action::Send(Reply::Entry(kv)),
        a.transition(Event::Received(kv)).0.replies@ == entries(
            a.transition(Event::Received(kv)).0.received@,
        ),
        a.transition(Event::Received(kv)).0.wf(),
        shown == Err::<Show, CommandError>(CommandError::InvalidPayload),
{
    lemma_step_keeps_wf(a, Event::Received(kv));
}

/// Text written by `put` reads back unchanged: a result that holds the UTF-8
/// bytes of the text `v` that a command line gave is shown as `v` again.
pub proof fn lemma_text_round_trip(v: Seq<char>, kv: KeyValue, shown: Result<Show, CommandError>)
    requires
        kv.payload@ == encode_utf8(v),
        shows(Reply::Entry(kv), shown),
    ensures
        shown matches Ok(Show::Entry(k, t)) && k == kv.keyexpr && t@ == v,
{
    encode_utf8_valid_utf8(v);
    encode_utf8_decode_utf8(v);
}

} // verus!
