use scratch_cloud::client::{
    ClientError, ClientSignal, Incoming, Origin, Reaction, SignalReaction, ending,
    handshake_auth, on_server_signal, process_message,
};
use scratch_cloud::protocol::{Operation, Value};
use scratch_cloud::server::{ServerMethod, ServerSignal};
use scratch_cloud::status::ErrorKind;

fn value(text: &str) -> Value {
    Value { text: text.to_string() }
}

#[test]
fn handshake_gives_the_auth() {
    let auth = handshake_auth(Incoming::Text(Some(Operation::Handshake {
        project_id: "42".to_string(),
        user: "alice".to_string(),
    })))
    .unwrap();
    assert_eq!(auth.project_id, "42");
    assert_eq!(auth.user, "alice");
}

#[test]
fn anything_but_a_handshake_is_refused_first() {
    assert!(handshake_auth(Incoming::Text(None)).is_none());
    assert!(handshake_auth(Incoming::Close).is_none());
    assert!(handshake_auth(Incoming::Other).is_none());
    assert!(handshake_auth(Incoming::Text(Some(Operation::Delete { name: "x".to_string() }))).is_none());
}

#[test]
fn set_and_create_both_set() {
    let r = process_message(3, Incoming::Text(Some(Operation::SetVar { name: "a".to_string(), value: value("1") })));
    assert!(matches!(r, Reaction::Forward(ServerSignal::Method(3, ServerMethod::SetVar { ref name, ref value }))
        if name == "a" && value.text == "1"));
    let r = process_message(3, Incoming::Text(Some(Operation::Create { name: "b".to_string(), value: value("[2]") })));
    assert!(matches!(r, Reaction::Forward(ServerSignal::Method(3, ServerMethod::SetVar { ref name, ref value }))
        if name == "b" && value.text == "[2]"));
}

#[test]
fn rename_and_delete_are_forwarded() {
    let r = process_message(5, Incoming::Text(Some(Operation::Rename { name: "a".to_string(), new_name: "b".to_string() })));
    assert!(matches!(r, Reaction::Forward(ServerSignal::Method(5, ServerMethod::Rename { ref name, ref new_name }))
        if name == "a" && new_name == "b"));
    let r = process_message(5, Incoming::Text(Some(Operation::Delete { name: "a".to_string() })));
    assert!(matches!(r, Reaction::Forward(ServerSignal::Method(5, ServerMethod::Delete { ref name })) if name == "a"));
}

#[test]
fn closing_message_makes_the_client_leave() {
    let r = process_message(9, Incoming::Close);
    assert!(matches!(r, Reaction::Leave(ServerSignal::Close(9))));
}

#[test]
fn other_messages_violate_the_protocol() {
    assert!(matches!(process_message(1, Incoming::Other), Reaction::Violation));
    assert!(matches!(process_message(1, Incoming::Text(None)), Reaction::Violation));
    let again = Operation::Handshake { project_id: "p".to_string(), user: "u".to_string() };
    assert!(matches!(process_message(1, Incoming::Text(Some(again))), Reaction::Violation));
}

#[test]
fn server_signals_become_informs_or_closes() {
    let r = on_server_signal(ClientSignal::InformSet { name: "v".to_string(), value: value("true") });
    assert!(matches!(r, SignalReaction::Inform(Operation::SetVar { ref name, ref value })
        if name == "v" && value.text == "true"));
    let r = on_server_signal(ClientSignal::Close { kind: ErrorKind::Security });
    assert!(matches!(r, SignalReaction::Close(ErrorKind::Security)));
}

#[test]
fn a_client_that_closes_ends_well() {
    let (kind, end) = ending(ClientError::Closed(Origin::Client));
    assert_eq!(kind, ErrorKind::Normal(1000));
    assert_eq!(kind.reason(), "1000");
    assert!(end.is_ok());
}

#[test]
fn other_endings_are_protocol_violations() {
    let (kind, end) = ending(ClientError::ProtocolViolation);
    assert_eq!(kind, ErrorKind::Generic);
    assert!(matches!(end, Err(ClientError::ProtocolViolation)));
    let (kind, end) = ending(ClientError::Closed(Origin::Server));
    assert_eq!(kind, ErrorKind::Generic);
    assert!(matches!(end, Err(ClientError::Closed(Origin::Server))));
    let (kind, end) = ending(ClientError::DeadServerRx);
    assert_eq!(kind, ErrorKind::Generic);
    assert!(matches!(end, Err(ClientError::DeadServerRx)));
}
