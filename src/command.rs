//! The operations that can be asked of the session, the errors a command can
//! end in, and the grammar of a command line.

use vstd::prelude::*;
use vstd::string::*;
use vstd::utf8::encode_utf8;
use crate::text::{lemma_split_spaces_nonempty, split_on_spaces, split_spaces, trim, trimmed};

verus! {

/// A key expression and the payload stored or published under it. The payload
/// is an opaque byte sequence.
pub struct KeyValue {
    pub keyexpr: String,
    pub payload: Vec<u8>,
}

/// One operation on the session.
pub enum Command {
    /// A query on a selector; zero or more key/value replies.
    Get { selector: String },
    /// A write of a payload under a key expression; one reply.
    Put { keyexpr: String, payload: Vec<u8> },
    /// A removal of a key expression; one reply.
    Delete { keyexpr: String },
    /// A live subscription to a key pattern; key/value replies until cancelled.
    Subscribe { keyexpr: String },
    /// The session's own identifier; one reply.
    Zid,
    /// The identifiers of the connected peers; zero or more replies.
    Peers,
    /// The identifiers of the connected routers; zero or more replies.
    Routers,
}

/// The session call that failed.
#[derive(PartialEq, Eq, Structural, Clone, Copy, Debug)]
pub enum Operation {
    Query,
    Write,
    Remove,
    Subscribe,
}

/// How a command can fail.
pub enum CommandError {
    /// The line holds no command word.
    MissingCommand,
    /// The command word is none of the known ones.
    UnknownCommand(String),
    /// `get` without a selector.
    MissingSelector,
    /// `put`, `delete` or `subscribe` without a key expression.
    MissingKeyExpression,
    /// `put` without a payload.
    MissingPayload,
    /// The actor no longer accepts commands.
    SendFailed,
    /// A session call failed on a key or selector, for the given cause.
    Network { operation: Operation, key: String, cause: String },
    /// A responder answered a query with an error.
    Reply(String),
    /// The reply channel closed before its one reply.
    NoReply(Operation),
    /// The identifier request ended with no reply.
    NoZid,
    /// A payload that must be shown as text is not valid UTF-8.
    InvalidPayload,
}

/// What a command line asks for.
pub enum Line {
    /// Leave the interactive loop.
    Quit,
    /// Run an operation.
    Run(Command),
}

/// The verb naming a failed session call, as shown in messages.
pub open spec fn operation_verb(op: Operation) -> Seq<char> {
    match op {
        Operation::Query => "query"@,
        Operation::Write => "put"@,
        Operation::Remove => "delete"@,
        Operation::Subscribe => "subscribe to"@,
    }
}

/// The text shown for an error.
pub open spec fn message_of(e: CommandError) -> Seq<char> {
    match e {
        CommandError::MissingCommand => "missing command"@,
        CommandError::UnknownCommand(c) => "unknown command: "@ + c@,
        CommandError::MissingSelector => "missing selector"@,
        CommandError::MissingKeyExpression => "missing key expression"@,
        CommandError::MissingPayload => "missing payload"@,
        CommandError::SendFailed => "failed to send command: channel closed"@,
        CommandError::Network { operation, key, cause } => "failed to "@ + operation_verb(operation)
            + " "@ + key@ + ": "@ + cause@,
        CommandError::Reply(cause) => cause@,
        CommandError::NoReply(op) => match op {
            Operation::Remove => "failed to delete keyexpr"@,
            _ => "failed to write keyexpr"@,
        },
        CommandError::NoZid => "failed to get zid"@,
        CommandError::InvalidPayload => "value must be utf-8"@,
    }
}

impl CommandError {
    /// The text shown for this error.
    pub fn message(&self) -> (r: String)
        ensures
            r@ == message_of(*self),
    {
        match self {
            CommandError::MissingCommand => "missing command".to_owned(),
            CommandError::UnknownCommand(c) => "unknown command: ".to_owned().concat(c.as_str()),
            CommandError::MissingSelector => "missing selector".to_owned(),
            CommandError::MissingKeyExpression => "missing key expression".to_owned(),
            CommandError::MissingPayload => "missing payload".to_owned(),
            CommandError::SendFailed => "failed to send command: channel closed".to_owned(),
            CommandError::Network { operation, key, cause } => {
                let verb = match operation {
                    Operation::Query => "query",
                    Operation::Write => "put",
                    Operation::Remove => "delete",
                    Operation::Subscribe => "subscribe to",
                };
                let r = "failed to ".to_owned().concat(verb).concat(" ").concat(key.as_str()).concat(
                    ": ",
                ).concat(cause.as_str());
                r
            },
            CommandError::Reply(cause) => cause.clone(),
            CommandError::NoReply(op) => match op {
                Operation::Remove => "failed to delete keyexpr".to_owned(),
                _ => "failed to write keyexpr".to_owned(),
            },
            CommandError::NoZid => "failed to get zid".to_owned(),
            CommandError::InvalidPayload => "value must be utf-8".to_owned(),
        }
    }
}

/// What the pieces `w` of a trimmed command line (split on single spaces)
/// ask for: the first piece is the command word, the next ones its arguments.
pub open spec fn parses_to(w: Seq<Seq<char>>, r: Result<Line, CommandError>) -> bool {
    let verb = w[0];
    if verb == "q"@ || verb == "quit"@ {
        r == Ok::<Line, CommandError>(Line::Quit)
    } else if verb == "get"@ {
        if w.len() < 2 {
            r == Err::<Line, CommandError>(CommandError::MissingSelector)
        } else {
            r matches Ok(Line::Run(Command::Get { selector })) && selector@ == w[1]
        }
    } else if verb == "put"@ {
        if w.len() < 2 {
            r == Err::<Line, CommandError>(CommandError::MissingKeyExpression)
        } else if w.len() < 3 {
            r == Err::<Line, CommandError>(CommandError::MissingPayload)
        } else {
            r matches Ok(Line::Run(Command::Put { keyexpr, payload })) && keyexpr@ == w[1]
                && payload@ == encode_utf8(w[2])
        }
    } else if verb == "delete"@ || verb == "del"@ {
        if w.len() < 2 {
            r == Err::<Line, CommandError>(CommandError::MissingKeyExpression)
        } else {
            r matches Ok(Line::Run(Command::Delete { keyexpr })) && keyexpr@ == w[1]
        }
    } else if verb == "subscribe"@ || verb == "sub"@ {
        if w.len() < 2 {
            r == Err::<Line, CommandError>(CommandError::MissingKeyExpression)
        } else {
            r matches Ok(Line::Run(Command::Subscribe { keyexpr })) && keyexpr@ == w[1]
        }
    } else if verb == "zid"@ {
        r == Ok::<Line, CommandError>(Line::Run(Command::Zid))
    } else if verb == "peers"@ {
        r == Ok::<Line, CommandError>(Line::Run(Command::Peers))
    } else if verb == "routers"@ {
        r == Ok::<Line, CommandError>(Line::Run(Command::Routers))
    } else if verb.len() == 0 {
        r == Err::<Line, CommandError>(CommandError::MissingCommand)
    } else {
        r matches Err(CommandError::UnknownCommand(c)) && c@ == verb
    }
}

/// Whether two texts hold the same characters.
fn same_text(a: &str, b: &str) -> (r: bool)
    ensures
        r == (a@ == b@),
{
    let n = a.unicode_len();
    if n != b.unicode_len() {
        return false;
    }
    let mut i: usize = 0;
    while i < n
        invariant
            n == a@.len() == b@.len(),
            i <= n,
            forall|k: int| 0 <= k < i ==> a@[k] == b@[k],
        decreases n - i,
    {
        if a.get_char(i) != b.get_char(i) {
            return false;
        }
        i = i + 1;
    }
    proof {
        assert(a@ =~= b@);
    }
    true
}

/// Reads the pieces of a trimmed command line.
pub fn parse_words(words: &Vec<String>) -> (r: Result<Line, CommandError>)
    requires
        words@.len() >= 1,
    ensures
        parses_to(words.deep_view(), r),
{
    let ghost w = words.deep_view();
    assert(w[0] == words@[0]@);
    let verb = words[0].as_str();
    let n = words.len();
    if same_text(verb, "q") || same_text(verb, "quit") {
        Ok(Line::Quit)
    } else if same_text(verb, "get") {
        if n < 2 {
            Err(CommandError::MissingSelector)
        } else {
            assert(w[1] == words@[1]@);
            Ok(Line::Run(Command::Get { selector: words[1].clone() }))
        }
    } else if same_text(verb, "put") {
        if n < 2 {
            Err(CommandError::MissingKeyExpression)
        } else if n < 3 {
            Err(CommandError::MissingPayload)
        } else {
            assert(w[1] == words@[1]@);
            assert(w[2] == words@[2]@);
            let payload = words[2].as_str().as_bytes_vec();
            Ok(Line::Run(Command::Put { keyexpr: words[1].clone(), payload }))
        }
    } else if same_text(verb, "delete") || same_text(verb, "del") {
        if n < 2 {
            Err(CommandError::MissingKeyExpression)
        } else {
            assert(w[1] == words@[1]@);
            Ok(Line::Run(Command::Delete { keyexpr: words[1].clone() }))
        }
    } else if same_text(verb, "subscribe") || same_text(verb, "sub") {
        if n < 2 {
            Err(CommandError::MissingKeyExpression)
        } else {
            assert(w[1] == words@[1]@);
            Ok(Line::Run(Command::Subscribe { keyexpr: words[1].clone() }))
        }
    } else if same_text(verb, "zid") {
        Ok(Line::Run(Command::Zid))
    } else if same_text(verb, "peers") {
        Ok(Line::Run(Command::Peers))
    } else if same_text(verb, "routers") {
        Ok(Line::Run(Command::Routers))
    } else if verb.unicode_len() == 0 {
        Err(CommandError::MissingCommand)
    } else {
        Err(CommandError::UnknownCommand(verb.to_owned()))
    }
}

/// Reads one command line: surrounding white space is ignored, and the rest
/// is split on single spaces.
pub fn parse_line(input: &str) -> (r: Result<Line, CommandError>)
    ensures
        parses_to(split_spaces(trimmed(input@)), r),
{
    let words = split_on_spaces(trim(input));
    proof {
        lemma_split_spaces_nonempty(trimmed(input@));
    }
    parse_words(&words)
}

} // verus!
