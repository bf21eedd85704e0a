//! What a client connection decides: who it is, what its messages ask of the
//! server, and how it ends.

use vstd::prelude::*;
use tokio::sync::mpsc::error::SendError;
use tokio_tungstenite::tungstenite;
use crate::protocol::{Operation, Value};
use crate::server::{ServerMethod, ServerSignal};
use crate::status::{ErrorKind, normal_close_code};

verus! {

/// tungstenite's error type, carried through unread.
#[verifier::external_type_specification]
#[verifier::external_body]
pub struct ExWebSocketError(tungstenite::Error);

/// tokio's error for a message that a closed channel did not take, carried
/// through unread.
#[verifier::external_type_specification]
#[verifier::external_body]
#[verifier::reject_recursive_types(T)]
pub struct ExSendError<T>(SendError<T>);

/// Who a client says it is, and which project it joins.
#[derive(Debug)]
pub struct Auth {
    pub project_id: String,
    pub user: String,
}

impl Clone for Auth {
    fn clone(&self) -> (copy: Self)
        ensures
            copy == *self,
    {
        Auth { project_id: self.project_id.clone(), user: self.user.clone() }
    }
}

/// What the server tells a client.
#[derive(Debug)]
pub enum ClientSignal {
    InformSet { name: String, value: Value },
    Close { kind: ErrorKind },
}

/// Which side closed a connection.
#[derive(Debug, Clone, Copy, PartialEq, Eq, Structural)]
pub enum Origin {
    Server,
    Client,
}

/// How a client connection ends badly.
#[derive(Debug)]
pub enum ClientError {
    WebSocket(tungstenite::Error),
    StreamFinished,
    DeadServerTx(SendError<ServerSignal>),
    DeadServerRx,
    ProtocolViolation,
    Closed(Origin),
    CantRegister,
}

/// A websocket message, as far as a client's logic reads it.
#[derive(Debug)]
pub enum Incoming {
    /// A text message, with the operation its JSON text holds, if it holds
    /// one.
    Text(Option<Operation>),
    /// The peer closes the connection.
    Close,
    /// Any other kind of message.
    Other,
}

/// What a client does with a message from its peer.
#[derive(Debug)]
pub enum Reaction {
    /// Hands the signal to the server and goes on.
    Forward(ServerSignal),
    /// Hands the signal to the server, leaves the registry and ends, closed
    /// by the client.
    Leave(ServerSignal),
    /// Ends for breaking the protocol.
    Violation,
}

/// What a client does with a signal from the server.
#[derive(Debug)]
pub enum SignalReaction {
    /// Sends this operation to its peer and goes on.
    Inform(Operation),
    /// Closes the connection for this reason, leaves the registry and ends,
    /// closed by the server.
    Close(ErrorKind),
}

/// Who a client is, when its first message is a handshake.
pub fn handshake_auth(first: Incoming) -> (auth: Option<Auth>)
    ensures
        match first {
            Incoming::Text(Some(Operation::Handshake { project_id, user })) => auth == Some(
                Auth { project_id, user },
            ),
            _ => auth is None,
        },
{
    match first {
        Incoming::Text(Some(Operation::Handshake { project_id, user })) => Some(
            Auth { project_id, user },
        ),
        _ => None,
    }
}

/// What client `id` does with a message: a change to a variable goes to the
/// server (creating a variable is setting it), a closing message makes the
/// client leave, and anything else breaks the protocol.
pub fn process_message(id: u64, msg: Incoming) -> (reaction: Reaction)
    ensures
        match msg {
            Incoming::Text(Some(Operation::SetVar { name, value })) => reaction == Reaction::Forward(
                ServerSignal::Method(id, ServerMethod::SetVar { name, value }),
            ),
            Incoming::Text(Some(Operation::Create { name, value })) => reaction == Reaction::Forward(
                ServerSignal::Method(id, ServerMethod::SetVar { name, value }),
            ),
            Incoming::Text(Some(Operation::Rename { name, new_name })) => reaction
                == Reaction::Forward(
                ServerSignal::Method(id, ServerMethod::Rename { name, new_name }),
            ),
            Incoming::Text(Some(Operation::Delete { name })) => reaction == Reaction::Forward(
                ServerSignal::Method(id, ServerMethod::Delete { name }),
            ),
            Incoming::Close => reaction == Reaction::Leave(ServerSignal::Close(id)),
            _ => reaction is Violation,
        },
{
    match msg {
        Incoming::Text(Some(op)) => match op {
            Operation::SetVar { name, value } => Reaction::Forward(
                ServerSignal::Method(id, ServerMethod::SetVar { name, value }),
            ),
            Operation::Create { name, value } => Reaction::Forward(
                ServerSignal::Method(id, ServerMethod::SetVar { name, value }),
            ),
            Operation::Rename { name, new_name } => Reaction::Forward(
                ServerSignal::Method(id, ServerMethod::Rename { name, new_name }),
            ),
            Operation::Delete { name } => Reaction::Forward(
                ServerSignal::Method(id, ServerMethod::Delete { name }),
            ),
            Operation::Handshake { .. } => Reaction::Violation,
        },
        Incoming::Close => Reaction::Leave(ServerSignal::Close(id)),
        _ => Reaction::Violation,
    }
}

/// What a client does with a signal from the server: passes a new value on
/// to its peer as a set operation, or closes.
pub fn on_server_signal(signal: ClientSignal) -> (reaction: SignalReaction)
    ensures
        match signal {
            ClientSignal::InformSet { name, value } => reaction == SignalReaction::Inform(
                Operation::SetVar { name, value },
            ),
            ClientSignal::Close { kind } => reaction == SignalReaction::Close(kind),
        },
{
    match signal {
        ClientSignal::InformSet { name, value } => SignalReaction::Inform(
            Operation::SetVar { name, value },
        ),
        ClientSignal::Close { kind } => SignalReaction::Close(kind),
    }
}

/// How a client ends after `err` stopped it: a client that closed ends well
/// with a normal closure, anything else is closed as a protocol violation
/// and ends with `err`.
pub fn ending(err: ClientError) -> (end: (ErrorKind, Result<(), ClientError>))
    ensures
        match err {
            ClientError::Closed(Origin::Client) => end.0 == ErrorKind::Normal(1000) && end.1 is Ok,
            _ => end.0 == ErrorKind::Generic && end.1 == Err::<(), ClientError>(err),
        },
{
    match err {
        ClientError::Closed(Origin::Client) => (ErrorKind::Normal(normal_close_code()), Ok(())),
        _ => (ErrorKind::Generic, Err(err)),
    }
}

} // verus!
