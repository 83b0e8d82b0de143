use zenoh_cli::actor::{command_kind, Action, Actor, Event, Kind, Phase, Reply};
use std::collections::HashMap;

use zenoh_cli::command::{parse_line, Command, CommandError, KeyValue, Line, Operation};
use zenoh_cli::driver::{no_results_notice, payload_text, Drain, Show};

fn step(actor: &mut Actor, ev: Event) -> Action {
    assert!(actor.can_take(&ev));
    actor.step(ev)
}

fn failure_message(a: Action) -> String {
    match a {
        Action::Send(Reply::Failure(e)) => e.message(),
        _ => panic!("expected a failure"),
    }
}

#[test]
fn failed_calls_carry_key_and_cause() {
    let mut actor = Actor::new();
    step(&mut actor, Event::Arrived(Command::Put { keyexpr: "a/b".to_string(), payload: b"x".to_vec() }));
    let m = failure_message(step(&mut actor, Event::Failed("no route".to_string())));
    assert_eq!(m, "failed to put a/b: no route");
    assert!(matches!(step(&mut actor, Event::Sent), Action::Finish));

    step(&mut actor, Event::Arrived(Command::Get { selector: "s/**".to_string() }));
    let m = failure_message(step(&mut actor, Event::Failed("bad selector".to_string())));
    assert_eq!(m, "failed to query s/**: bad selector");
    assert!(matches!(step(&mut actor, Event::Rejected), Action::Finish));

    step(&mut actor, Event::Arrived(Command::Delete { keyexpr: "d".to_string() }));
    let m = failure_message(step(&mut actor, Event::Failed("x".to_string())));
    assert_eq!(m, "failed to delete d: x");
    step(&mut actor, Event::Sent);

    step(&mut actor, Event::Arrived(Command::Subscribe { keyexpr: "p".to_string() }));
    let m = failure_message(step(&mut actor, Event::Failed("y".to_string())));
    assert_eq!(m, "failed to subscribe to p: y");
    assert!(matches!(step(&mut actor, Event::Sent), Action::Finish));
    assert!(actor.is_idle());
}

#[test]
fn reply_error_ends_the_query() {
    let mut actor = Actor::new();
    step(&mut actor, Event::Arrived(Command::Get { selector: "s".to_string() }));
    step(&mut actor, Event::Dispatched);
    let m = failure_message(step(&mut actor, Event::ReplyFailed("storage error".to_string())));
    assert_eq!(m, "storage error");
    assert!(matches!(step(&mut actor, Event::Sent), Action::Finish));
}

#[test]
fn commands_are_taken_one_at_a_time() {
    let mut actor = Actor::new();
    assert!(actor.is_idle());
    step(&mut actor, Event::Arrived(Command::Get { selector: "s".to_string() }));
    assert!(!actor.is_idle());
    assert!(actor.phase == Phase::Calling);
    assert!(!actor.can_take(&Event::Arrived(Command::Zid)));
    step(&mut actor, Event::Dispatched);
    assert!(!actor.can_take(&Event::Arrived(Command::Zid)));
    step(&mut actor, Event::Exhausted);
    assert!(actor.can_take(&Event::Arrived(Command::Zid)));
}

#[test]
fn a_dropped_consumer_ends_a_subscription() {
    let mut actor = Actor::new();
    step(&mut actor, Event::Arrived(Command::Subscribe { keyexpr: "t/**".to_string() }));
    step(&mut actor, Event::Dispatched);
    let kv = KeyValue { keyexpr: "t/a".to_string(), payload: b"1".to_vec() };
    step(&mut actor, Event::Received(kv));
    assert!(matches!(step(&mut actor, Event::Rejected), Action::Release));
    assert!(actor.is_idle());

    step(&mut actor, Event::Arrived(Command::Subscribe { keyexpr: "t/**".to_string() }));
    step(&mut actor, Event::Dispatched);
    assert!(matches!(step(&mut actor, Event::Ended), Action::Release));
    assert!(actor.is_idle());
}

#[test]
fn a_put_answers_exactly_once() {
    let mut actor = Actor::new();
    step(&mut actor, Event::Arrived(Command::Put { keyexpr: "k".to_string(), payload: vec![] }));
    assert!(matches!(step(&mut actor, Event::Dispatched), Action::Send(Reply::Done)));
    assert!(!actor.can_take(&Event::Dispatched));
    assert!(matches!(step(&mut actor, Event::Rejected), Action::Finish));
    assert!(actor.is_idle());
}

#[test]
fn identity_is_forwarded_as_given() {
    let mut actor = Actor::new();
    let mut seen = Vec::new();
    for _ in 0..2 {
        step(&mut actor, Event::Arrived(Command::Zid));
        match step(&mut actor, Event::Identified("abc123".to_string())) {
            Action::Send(Reply::Text(t)) => seen.push(t),
            _ => panic!("expected the identifier"),
        }
        step(&mut actor, Event::Sent);
    }
    assert_eq!(seen[0], seen[1]);
}

#[test]
fn invalid_payload_passes_through_and_fails_only_when_shown() {
    let bytes = vec![0x66u8, 0xff, 0xfe];
    let mut actor = Actor::new();
    step(&mut actor, Event::Arrived(Command::Put { keyexpr: "b".to_string(), payload: bytes.clone() }));
    assert!(matches!(step(&mut actor, Event::Dispatched), Action::Send(Reply::Done)));
    step(&mut actor, Event::Sent);

    step(&mut actor, Event::Arrived(Command::Get { selector: "b".to_string() }));
    step(&mut actor, Event::Dispatched);
    let kv = KeyValue { keyexpr: "b".to_string(), payload: bytes.clone() };
    let item = match step(&mut actor, Event::Received(kv)) {
        Action::Send(r) => r,
        _ => panic!("expected a push"),
    };
    match &item {
        Reply::Entry(kv) => assert_eq!(kv.payload, bytes),
        _ => panic!("expected an entry"),
    }
    let mut drain = Drain::new(Kind::Get);
    assert!(matches!(drain.take(item), Err(CommandError::InvalidPayload)));
    assert!(matches!(step(&mut actor, Event::Sent), Action::Next));
    assert!(matches!(step(&mut actor, Event::Exhausted), Action::Finish));
    step(&mut actor, Event::Arrived(Command::Zid));
    assert!(matches!(step(&mut actor, Event::Identified("z".to_string())), Action::Send(Reply::Text(_))));
}

#[test]
fn payload_text_decodes_utf8() {
    let kv = KeyValue { keyexpr: "k".to_string(), payload: vec![0x68, 0xc3, 0xa9] };
    assert_eq!(payload_text(&kv).ok(), Some("hé".to_string()));
    let kv = KeyValue { keyexpr: "k".to_string(), payload: vec![] };
    assert_eq!(payload_text(&kv).ok(), Some(String::new()));
    let kv = KeyValue { keyexpr: "k".to_string(), payload: vec![0xc3] };
    assert!(matches!(payload_text(&kv), Err(CommandError::InvalidPayload)));
}

#[test]
fn closing_without_items() {
    assert!(matches!(Drain::new(Kind::Put).close(), Err(CommandError::NoReply(Operation::Write))));
    assert!(matches!(Drain::new(Kind::Delete).close(), Err(CommandError::NoReply(Operation::Remove))));
    assert!(matches!(Drain::new(Kind::Zid).close(), Err(CommandError::NoZid)));
    assert!(matches!(Drain::new(Kind::Subscribe).close(), Ok(Show::Nothing)));
    assert!(matches!(Drain::new(Kind::Peers).close(), Ok(Show::NoResults(Kind::Peers))));
    assert_eq!(no_results_notice(Kind::Peers), "no peers found");
    assert_eq!(no_results_notice(Kind::Routers), "no routers found");
    assert_eq!(no_results_notice(Kind::Get), "no replies received");
}

#[test]
fn single_reply_kinds_read_one_item() {
    let mut d = Drain::new(command_kind(&Command::Zid));
    assert!(d.wants_more());
    assert!(matches!(d.take(Reply::Failure(CommandError::NoZid)), Err(CommandError::NoZid)));
    assert!(!d.wants_more());
    let mut d = Drain::new(Kind::Get);
    d.take(Reply::Text("x".to_string())).ok();
    assert!(d.wants_more());
}

#[test]
fn written_value_reads_back_then_disappears() {
    let mut store: HashMap<String, Vec<u8>> = HashMap::new();
    let mut actor = Actor::new();
    let run = |actor: &mut Actor, store: &mut HashMap<String, Vec<u8>>, line: &str| -> Vec<Result<Show, CommandError>> {
        let cmd = match parse_line(line) {
            Ok(Line::Run(c)) => c,
            _ => panic!("not a command"),
        };
        let mut drain = Drain::new(command_kind(&cmd));
        let mut shown = Vec::new();
        let mut results: Vec<KeyValue> = Vec::new();
        let mut action = step(actor, Event::Arrived(cmd));
        loop {
            let ev = match action {
                Action::Write(k, p) => {
                    store.insert(k, p);
                    Event::Dispatched
                }
                Action::Remove(k) => {
                    store.remove(&k);
                    Event::Dispatched
                }
                Action::Query(s) => {
                    if let Some(p) = store.get(&s) {
                        results.push(KeyValue { keyexpr: s.clone(), payload: p.clone() });
                    }
                    Event::Dispatched
                }
                Action::Next => match results.pop() {
                    Some(kv) => Event::Received(kv),
                    None => Event::Exhausted,
                },
                Action::Send(r) => {
                    shown.push(drain.take(r));
                    Event::Sent
                }
                Action::Finish | Action::Release => break,
                _ => panic!("unexpected action"),
            };
            action = step(actor, ev);
        }
        if drain.wants_more() {
            shown.push(drain.close());
        }
        shown
    };

    let s = run(&mut actor, &mut store, "put demo/k hello");
    assert!(matches!(s.as_slice(), [Ok(Show::Done)]));
    let s = run(&mut actor, &mut store, "get demo/k");
    assert_eq!(s.len(), 2);
    assert!(matches!(&s[0], Ok(Show::Entry(k, t)) if k == "demo/k" && t == "hello"));
    assert!(matches!(&s[1], Ok(Show::Nothing)));
    let s = run(&mut actor, &mut store, "del demo/k");
    assert!(matches!(s.as_slice(), [Ok(Show::Done)]));
    let s = run(&mut actor, &mut store, "get demo/k");
    assert!(matches!(s.as_slice(), [Ok(Show::NoResults(Kind::Get))]));
}
