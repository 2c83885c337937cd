use rnet_core::error::Error;
use rnet_core::http::{StatusCode, Version};
use rnet_core::ws::{
    actor_step, recv_outcome, run_queue, Action, ActorState, Command, Message, WebSocketSession,
};

fn open_session() -> WebSocketSession {
    WebSocketSession::new(
        StatusCode(101),
        Version::HTTP_11,
        Vec::new(),
        Some("chat".to_string()),
        None,
        None,
    )
}

#[test]
fn pending_recv_resolves_when_close_is_submitted() {
    // A Recv with no timeout submitted before a Close still gets its turn:
    // the actor answers every queued command in submission order, so the
    // pending receive resolves instead of hanging.
    let cmds = vec![
        Command::Recv(None),
        Command::Close(None, None),
        Command::Send(Message::from_text("late".to_string())),
    ];
    let actions = run_queue(cmds);
    assert_eq!(actions.len(), 3);
    assert!(matches!(actions[0], Action::AwaitMessage(None)));
    match &actions[1] {
        Action::SendClose(code, reason) => {
            assert_eq!(*code, 1000);
            assert_eq!(reason, "Goodbye");
        }
        other => panic!("expected a close action, got {:?}", other),
    }
    // The command submitted after Close is rejected without touching the
    // socket.
    assert!(matches!(actions[2], Action::Reject));
}

#[test]
fn recv_timeout_is_timeout_error_and_session_stays_open() {
    // The race timer won: the receive reports the timeout error
    // specifically.
    let r = recv_outcome(None);
    assert!(matches!(r, Err(Error::Timeout)));

    // The actor stays open: the next receive is dispatched normally.
    let (state, action) = actor_step(ActorState::Open, Command::Recv(Some(50)));
    assert_eq!(state, ActorState::Open);
    assert!(matches!(action, Action::AwaitMessage(Some(50))));
    let (state, action) = actor_step(state, Command::Recv(Some(80)));
    assert_eq!(state, ActorState::Open);
    assert!(matches!(action, Action::AwaitMessage(Some(80))));
}

#[test]
fn recv_outcome_passes_messages_and_faults_through() {
    let msg = Message::from_binary(vec![1, 2, 3]);
    let r = recv_outcome(Some(Ok(Some(msg)))).unwrap().unwrap();
    assert_eq!(r.binary().unwrap(), &vec![1, 2, 3]);
    let end = recv_outcome(Some(Ok(None))).unwrap();
    assert!(end.is_none());
    let fault = recv_outcome(Some(Err(Error::Transport)));
    assert!(matches!(fault, Err(Error::Transport)));
}

#[test]
fn close_uses_explicit_code_and_reason() {
    let (state, action) = actor_step(
        ActorState::Open,
        Command::Close(Some(4000), Some("done".to_string())),
    );
    assert_eq!(state, ActorState::Closed);
    match action {
        Action::SendClose(code, reason) => {
            assert_eq!(code, 4000);
            assert_eq!(reason, "done");
        }
        other => panic!("expected a close action, got {:?}", other),
    }
}

#[test]
fn commands_after_close_fail_disconnected() {
    let mut s = open_session();
    let first = s.close(None, None);
    assert!(first.is_ok());
    assert!(matches!(s.close(None, None), Err(Error::Disconnected)));
    assert!(matches!(
        s.send(Message::from_text("x".to_string())),
        Err(Error::Disconnected)
    ));
    assert!(matches!(s.recv(None), Err(Error::Disconnected)));
}

#[test]
fn session_send_and_recv_while_open() {
    let mut s = open_session();
    match s.send(Message::from_text("hi".to_string())).unwrap() {
        Action::Transmit(m) => assert_eq!(m.text().unwrap(), "hi"),
        other => panic!("expected transmit, got {:?}", other),
    }
    match s.recv(Some(100)).unwrap() {
        Action::AwaitMessage(t) => assert_eq!(t, Some(100)),
        other => panic!("expected await, got {:?}", other),
    }
    assert_eq!(s.actor, ActorState::Open);
}

#[test]
fn message_constructors_and_accessors() {
    let t = Message::from_text("abc".to_string());
    assert_eq!(t.text().unwrap(), "abc");
    assert!(t.binary().is_none());
    assert!(t.close_code().is_none());

    let b = Message::from_binary(vec![9, 8]);
    assert_eq!(b.binary().unwrap(), &vec![9, 8]);
    assert!(b.text().is_none());

    let p = Message::from_ping(vec![1]);
    assert_eq!(p.binary().unwrap(), &vec![1]);
    let q = Message::from_pong(vec![2]);
    assert_eq!(q.binary().unwrap(), &vec![2]);

    let c = Message::from_close(Some(1001), Some("bye".to_string()));
    assert_eq!(c.close_code(), Some(1001));
    assert!(c.text().is_none());
    assert!(c.binary().is_none());
}

#[test]
fn message_from_json_serializes_the_value() {
    let j = rnet_core::json::Json::Object(vec![(
        "k".to_string(),
        rnet_core::json::Json::Text("v".to_string()),
    )]);
    let m = Message::from_json(&j);
    assert_eq!(m.text().unwrap(), "{\"k\":\"v\"}");
}

#[test]
fn session_protocol_getter() {
    let s = open_session();
    assert_eq!(s.protocol().map(|p| p.as_str()), Some("chat"));
}

#[test]
fn session_metadata_survives_commands() {
    let mut s = open_session();
    s.send(Message::from_text("hi".to_string())).unwrap();
    s.recv(None).unwrap();
    s.close(None, None).unwrap();
    assert_eq!(s.status.as_int(), 101);
    assert_eq!(s.protocol().map(|p| p.as_str()), Some("chat"));
    assert_eq!(s.version, Version::HTTP_11);
}
