use rust_dist_sys::echo::{EchoNode, EchoPayload};
use rust_dist_sys::init::{Init, InitType};
use rust_dist_sys::runtime::{Action, Error, Event, Identity, Stage, State};
use rust_dist_sys::{HandlerError, Message, MessageBody};

fn init_line(typ: InitType) -> Message<Init> {
    Message {
        src: "c1".to_string(),
        dest: "n1".to_string(),
        body: MessageBody {
            msg_id: Some(1),
            in_reply_to: None,
            payload: Init { typ, node_id: "n1".to_string(), node_ids: vec!["n1".to_string()] },
        },
    }
}

fn echo_line(msg_id: usize, text: &str) -> Message<EchoPayload> {
    Message {
        src: "c1".to_string(),
        dest: "n1".to_string(),
        body: MessageBody {
            msg_id: Some(msg_id),
            in_reply_to: None,
            payload: EchoPayload::Echo { echo: text.to_string() },
        },
    }
}

fn echo_ok_line(msg_id: usize, text: &str) -> Message<EchoPayload> {
    Message {
        src: "c1".to_string(),
        dest: "n1".to_string(),
        body: MessageBody {
            msg_id: Some(msg_id),
            in_reply_to: None,
            payload: EchoPayload::EchoOk { echo: text.to_string() },
        },
    }
}

fn node() -> EchoNode {
    EchoNode { id: 1 }
}

fn identity() -> Identity {
    Identity { node_id: "n1".to_string(), node_ids: vec!["n1".to_string(), "n2".to_string()] }
}

fn running() -> State {
    State::Running(identity())
}

fn assert_failure(next: (State, Action<EchoPayload>), stage: Stage, detail: &str) {
    match next {
        (State::Failed(kept), Action::Abort(reported)) => {
            assert_eq!(kept.stage, stage);
            assert_eq!(kept.detail, detail);
            assert_eq!(reported.stage, stage);
            assert_eq!(reported.detail, detail);
        }
        other => panic!("expected a failure, got {:?}", other),
    }
}

fn assert_same_identity(state: &State) {
    match state {
        State::Running(kept) => {
            assert_eq!(kept.node_id, "n1");
            assert_eq!(kept.node_ids, vec!["n1".to_string(), "n2".to_string()]);
        }
        other => panic!("expected a running node, got {:?}", other),
    }
}

#[test]
fn a_loop_starts_awaiting_the_handshake() {
    assert!(matches!(State::new(), State::AwaitingInit));
}

#[test]
fn handshake_is_acknowledged_and_starts_the_node() {
    let (state, action) = State::new().step(node(), Event::Init(init_line(InitType::Init)));
    match state {
        State::Running(identity) => {
            assert_eq!(identity.node_id, "n1");
            assert_eq!(identity.node_ids, vec!["n1".to_string()]);
        }
        other => panic!("expected a running node, got {:?}", other),
    }
    match action {
        Action::Greet(reply) => {
            assert_eq!(reply.src, "n1");
            assert_eq!(reply.dest, "c1");
            assert_eq!(reply.body.msg_id, Some(0));
            assert_eq!(reply.body.in_reply_to, Some(1));
            assert_eq!(reply.body.payload.typ, InitType::InitOk);
        }
        other => panic!("expected a greeting, got {:?}", other),
    }
}

#[test]
fn handshake_keeps_every_peer_name() {
    let mut init = init_line(InitType::Init);
    init.body.payload.node_id = "n2".to_string();
    init.body.payload.node_ids = vec!["n1".to_string(), "n2".to_string(), "n3".to_string()];
    let (state, _) = State::new().step(node(), Event::Init(init));
    match state {
        State::Running(identity) => {
            assert_eq!(identity.node_id, "n2");
            assert_eq!(
                identity.node_ids,
                vec!["n1".to_string(), "n2".to_string(), "n3".to_string()]
            );
        }
        other => panic!("expected a running node, got {:?}", other),
    }
}

#[test]
fn first_message_tagged_init_ok_is_refused() {
    let next = State::new().step(node(), Event::Init(init_line(InitType::InitOk)));
    assert_failure(next, Stage::DecodeInit, "the first message is not an init message");
}

#[test]
fn request_before_the_handshake_is_refused() {
    let next = State::new().step(node(), Event::Request(echo_line(1, "early")));
    assert_failure(next, Stage::DecodeInit, "the first message is not an init message");
}

#[test]
fn end_of_input_before_the_handshake_is_a_failure() {
    let next = State::new().step(node(), Event::EndOfInput);
    assert_failure(next, Stage::ReadInit, "no init message received");
}

#[test]
fn unreadable_handshake_is_a_failure() {
    let next = State::new().step(node(), Event::ReadFailed("stream closed".to_string()));
    assert_failure(next, Stage::ReadInit, "stream closed");
}

#[test]
fn undecodable_handshake_is_a_failure() {
    let next = State::new().step(node(), Event::DecodeFailed("expected value".to_string()));
    assert_failure(next, Stage::DecodeInit, "expected value");
}

#[test]
fn output_failures_before_the_handshake_are_failures() {
    let next = State::new().step(node(), Event::EncodeFailed("bad key".to_string()));
    assert_failure(next, Stage::EncodeReply, "bad key");
    let next = State::new().step(node(), Event::WriteFailed("broken pipe".to_string()));
    assert_failure(next, Stage::WriteOutput, "broken pipe");
}

#[test]
fn echo_request_is_answered_by_a_running_node() {
    let (state, action) = running().step(node(), Event::Request(echo_line(2, "hello")));
    assert_same_identity(&state);
    match action {
        Action::Reply(reply) => {
            assert_eq!(reply.src, "n1");
            assert_eq!(reply.dest, "c1");
            assert_eq!(reply.body.msg_id, Some(2));
            assert_eq!(reply.body.in_reply_to, Some(2));
            assert!(matches!(&reply.body.payload, EchoPayload::EchoOk { echo } if echo == "hello"));
        }
        other => panic!("expected a reply, got {:?}", other),
    }
}

#[test]
fn unsolicited_echo_ok_writes_nothing() {
    let (state, action) = running().step(node(), Event::Request(echo_ok_line(2, "hello")));
    assert_same_identity(&state);
    assert!(matches!(action, Action::Continue));
}

#[test]
fn end_of_input_stops_a_running_node_cleanly() {
    let (state, action) = running().step(node(), Event::EndOfInput);
    assert!(matches!(state, State::Stopped));
    assert!(matches!(action, Action::Exit));
}

#[test]
fn end_of_input_right_after_the_handshake_is_clean() {
    let (state, _) = State::new().step(node(), Event::Init(init_line(InitType::Init)));
    let (state, action) = state.step(node(), Event::<EchoPayload>::EndOfInput);
    assert!(matches!(state, State::Stopped));
    assert!(matches!(action, Action::Exit));
}

#[test]
fn end_of_input_after_several_requests_is_clean() {
    let (mut state, _) = State::new().step(node(), Event::Init(init_line(InitType::Init)));
    for n in 2..10 {
        let line = if n % 3 == 0 { echo_ok_line(n, "stray") } else { echo_line(n, "text") };
        let (next, action) = state.step(node(), Event::Request(line));
        assert!(matches!(next, State::Running(_)));
        assert_eq!(matches!(action, Action::Reply(_)), n % 3 != 0);
        assert_eq!(matches!(action, Action::Continue), n % 3 == 0);
        state = next;
    }
    let (state, action) = state.step(node(), Event::<EchoPayload>::EndOfInput);
    assert!(matches!(state, State::Stopped));
    assert!(matches!(action, Action::Exit));
}

#[test]
fn replies_come_in_the_order_of_the_requests() {
    let mut state = running();
    let mut written: Vec<(Option<usize>, String)> = Vec::new();
    for (n, text) in [(5, "a"), (6, "b"), (7, "c"), (8, "d")] {
        let (next, action) = state.step(node(), Event::Request(echo_line(n, text)));
        if let Action::Reply(reply) = action {
            if let EchoPayload::EchoOk { echo } = reply.body.payload {
                written.push((reply.body.in_reply_to, echo));
            }
        }
        state = next;
    }
    assert_eq!(
        written,
        vec![
            (Some(5), "a".to_string()),
            (Some(6), "b".to_string()),
            (Some(7), "c".to_string()),
            (Some(8), "d".to_string()),
        ]
    );
}

#[test]
fn undecodable_line_stops_a_running_node_with_a_failure() {
    let next = running().step(node(), Event::DecodeFailed("expected value at line 1".to_string()));
    assert_failure(next, Stage::DecodeMessage, "expected value at line 1");
}

#[test]
fn nothing_is_handled_after_an_undecodable_line() {
    let (state, _) = running().step(node(), Event::DecodeFailed("eof".to_string()));
    let next = state.step(node(), Event::Request(echo_line(3, "late")));
    assert_failure(next, Stage::DecodeMessage, "eof");
}

#[test]
fn unreadable_line_stops_a_running_node_with_a_failure() {
    let next = running().step(node(), Event::ReadFailed("invalid utf-8".to_string()));
    assert_failure(next, Stage::ReadMessage, "invalid utf-8");
}

#[test]
fn output_failures_stop_a_running_node() {
    let next = running().step(node(), Event::EncodeFailed("no".to_string()));
    assert_failure(next, Stage::EncodeReply, "no");
    let next = running().step(node(), Event::WriteFailed("broken pipe".to_string()));
    assert_failure(next, Stage::WriteOutput, "broken pipe");
}

#[test]
fn second_handshake_is_refused() {
    let next = running().step(node(), Event::Init(init_line(InitType::Init)));
    assert_failure(next, Stage::DecodeMessage, "an init message arrived after the handshake");
}

#[test]
fn stopped_loop_stays_stopped() {
    let events: Vec<Event<EchoPayload>> = vec![
        Event::Init(init_line(InitType::Init)),
        Event::Request(echo_line(2, "hello")),
        Event::EndOfInput,
        Event::ReadFailed("r".to_string()),
        Event::DecodeFailed("d".to_string()),
        Event::EncodeFailed("e".to_string()),
        Event::WriteFailed("w".to_string()),
    ];
    for event in events {
        let (state, action) = State::Stopped.step(node(), event);
        assert!(matches!(state, State::Stopped));
        assert!(matches!(action, Action::Exit));
    }
}

#[test]
fn failed_loop_keeps_its_failure() {
    let events: Vec<Event<EchoPayload>> = vec![
        Event::Init(init_line(InitType::Init)),
        Event::Request(echo_line(2, "hello")),
        Event::EndOfInput,
        Event::ReadFailed("r".to_string()),
        Event::DecodeFailed("d".to_string()),
        Event::EncodeFailed("e".to_string()),
        Event::WriteFailed("w".to_string()),
    ];
    for event in events {
        let failed = State::Failed(Error { stage: Stage::Handle, detail: "first".to_string() });
        assert_failure(failed.step(node(), event), Stage::Handle, "first");
    }
}

#[test]
fn settled_reply_is_written() {
    let reply = echo_ok_line(9, "out");
    let (state, action) = State::settle(identity(), Ok(Some(reply)));
    assert_same_identity(&state);
    match action {
        Action::Reply(reply) => {
            assert_eq!(reply.body.msg_id, Some(9));
            assert!(matches!(&reply.body.payload, EchoPayload::EchoOk { echo } if echo == "out"));
        }
        other => panic!("expected a reply, got {:?}", other),
    }
}

#[test]
fn settled_silence_writes_nothing() {
    let (state, action) = State::settle::<EchoPayload>(identity(), Ok(None));
    assert_same_identity(&state);
    assert!(matches!(action, Action::Continue));
}

#[test]
fn settled_handler_failure_is_fatal() {
    let failure = HandlerError { reason: "out of ids".to_string() };
    let next = State::settle::<EchoPayload>(identity(), Err(failure));
    assert_failure(next, Stage::Handle, "out of ids");
}

#[test]
fn each_stage_has_its_own_words() {
    assert_eq!(Stage::ReadInit.context(), "failed to read init message from stdin");
    assert_eq!(Stage::DecodeInit.context(), "init message could not be deserialized");
    assert_eq!(Stage::ReadMessage.context(), "Maelstrom input from STDIN could not be read");
    assert_eq!(
        Stage::DecodeMessage.context(),
        "Maelstrom input from STDIN could not be deserialized"
    );
    assert_eq!(Stage::Handle.context(), "Node handle function failed");
    assert_eq!(Stage::EncodeReply.context(), "serialize response");
    assert_eq!(Stage::WriteOutput.context(), "write trailing newline");
}

#[test]
fn identity_is_known_only_while_the_node_runs() {
    assert!(State::new().identity().is_none());
    assert!(State::Stopped.identity().is_none());
    let failed = State::Failed(Error { stage: Stage::ReadMessage, detail: "x".to_string() });
    assert!(failed.identity().is_none());
    let state = running();
    let identity = state.identity().unwrap();
    assert_eq!(identity.node_id, "n1");
    assert_eq!(identity.node_ids, vec!["n1".to_string(), "n2".to_string()]);
}

#[test]
fn identity_stays_as_assigned_while_requests_come_in() {
    let mut init = init_line(InitType::Init);
    init.body.payload.node_ids = vec!["n1".to_string(), "n2".to_string()];
    let (mut state, _) = State::new().step(node(), Event::Init(init));
    for n in 2..6 {
        let (next, _) = state.step(node(), Event::Request(echo_line(n, "x")));
        assert_same_identity(&next);
        state = next;
    }
}
