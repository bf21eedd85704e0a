//! How a connection is closed: the close code and the reason text that go
//! into the closing frame.

use vstd::prelude::*;
use tokio_tungstenite::tungstenite::protocol::frame::coding::CloseCode;

verus! {

/// Why the server closes a client's connection.
#[derive(Debug, Clone, Copy, PartialEq, Eq, Structural)]
pub enum ErrorKind {
    Generic,
    Username,
    Overloaded,
    Unavailable,
    Security,
    Identity,
    /// A standard websocket close code, by its number.
    Normal(u16),
}

/// The character of a decimal digit.
pub open spec fn digit_char(d: nat) -> char {
    (48 + d) as char
}

/// The decimal text of a number, without sign or leading zeros.
pub open spec fn decimal_text(n: nat) -> Seq<char>
    decreases n,
{
    if n < 10 {
        seq![digit_char(n)]
    } else {
        decimal_text(n / 10).push(digit_char(n % 10))
    }
}

/// The close code sent for a kind of closure.
pub open spec fn spec_close_code(kind: ErrorKind) -> u16 {
    match kind {
        ErrorKind::Generic => 4000,
        ErrorKind::Username => 4002,
        ErrorKind::Overloaded => 4003,
        ErrorKind::Unavailable => 4004,
        ErrorKind::Security => 4005,
        ErrorKind::Identity => 4006,
        ErrorKind::Normal(c) => c,
    }
}

/// The reason text sent for a kind of closure.
pub open spec fn spec_close_reason(kind: ErrorKind) -> Seq<char> {
    match kind {
        ErrorKind::Generic => "Protocol violation"@,
        ErrorKind::Username => "Bad username"@,
        ErrorKind::Overloaded => "Server full"@,
        ErrorKind::Unavailable => "Project unavailable"@,
        ErrorKind::Security => "Security violation"@,
        ErrorKind::Identity => "Identify yourself"@,
        ErrorKind::Normal(c) => decimal_text(c as nat),
    }
}

/// `CloseCode::Normal` of tungstenite, as its number: the source maps
/// `Normal` to 1000.
#[verifier::external_body]
pub(crate) fn normal_close_code() -> (code: u16)
    ensures
        code == 1000,
{
    CloseCode::Normal.into()
}

/// The text of a close code: tungstenite's `CloseCode::from(code)`, shown
/// with its `Display`. In the source, `From<u16>` and `From<CloseCode> for u16`
/// give back every number unchanged, and `Display` writes that number in
/// decimal.
#[verifier::external_body]
fn close_code_text(code: u16) -> (text: String)
    ensures
        text@ == decimal_text(code as nat),
{
    CloseCode::from(code).to_string()
}

impl ErrorKind {
    /// The close code of the closing frame for this kind.
    pub fn code(&self) -> (code: u16)
        ensures
            code == spec_close_code(*self),
    {
        match self {
            ErrorKind::Generic => 4000,
            ErrorKind::Username => 4002,
            ErrorKind::Overloaded => 4003,
            ErrorKind::Unavailable => 4004,
            ErrorKind::Security => 4005,
            ErrorKind::Identity => 4006,
            ErrorKind::Normal(c) => *c,
        }
    }

    /// The reason text of the closing frame for this kind.
    pub fn reason(&self) -> (reason: String)
        ensures
            reason@ == spec_close_reason(*self),
    {
        match self {
            ErrorKind::Generic => "Protocol violation".to_string(),
            ErrorKind::Username => "Bad username".to_string(),
            ErrorKind::Overloaded => "Server full".to_string(),
            ErrorKind::Unavailable => "Project unavailable".to_string(),
            ErrorKind::Security => "Security violation".to_string(),
            ErrorKind::Identity => "Identify yourself".to_string(),
            ErrorKind::Normal(c) => close_code_text(*c),
        }
    }
}

} // verus!
