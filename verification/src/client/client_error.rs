use vstd::prelude::*;

use vstd::string::StringExecFns;

use crate::protocol::Message;

verus! {

/// An error of the operating system's input and output, carried through unchanged.
#[verifier::external_type_specification]
#[verifier::external_body]
pub struct ExIoError(std::io::Error);

/// An error of the WebSocket connection, carried through unchanged.
#[verifier::external_type_specification]
#[verifier::external_body]
pub struct ExWebSocketError(tungstenite::error::Error);

/// An error of JSON encoding or decoding, carried through unchanged.
#[verifier::external_type_specification]
#[verifier::external_body]
pub struct ExJsonError(serde_json::Error);

/// Why a client operation failed.
#[derive(Debug)]
pub enum ClientError {
    IOError(std::io::Error),
    /// The message that could not be handed to the connection's sending task.
    MPSCSend(Message),
    Tungstenite(tungstenite::error::Error),
    SerdeJSON(serde_json::Error),
    /// The server answered with this error.
    ServerError(String),
    Connected,
    Disconnected,
    Unauthenticated,
    InvalidMessage,
}

/// What `Display` writes for an input/output error. Nothing is claimed of the
/// text: the operating system supplies much of it.
#[verifier::external_body]
pub(crate) fn io_error_text(err: &std::io::Error) -> String {
    err.to_string()
}

/// What `Display` writes for a `tungstenite::error::Error`. Nothing is claimed of
/// the text, which depends on what the error holds.
#[verifier::external_body]
pub(crate) fn websocket_error_text(err: &tungstenite::error::Error) -> String {
    err.to_string()
}

/// What `Display` writes for a `serde_json::Error`. Nothing is claimed of the
/// text, which depends on what the error holds.
#[verifier::external_body]
pub(crate) fn json_error_text(err: &serde_json::Error) -> String {
    err.to_string()
}

/// `prefix` followed by `detail`.
pub(crate) fn join_text(prefix: &str, detail: &str) -> (s: String)
    ensures
        s@ == prefix@ + detail@,
{
    let mut s = String::from_str(prefix);
    s.append(detail);
    s
}

/// A `String` holding `text`.
pub(crate) fn owned_text(text: &str) -> (s: String)
    ensures
        s@ == text@,
{
    String::from_str(text)
}

impl ClientError {
    /// Describes the error in words. Where the error carries an error of another
    /// library, its own description follows the prefix.
    pub fn to_string(&self) -> (s: String)
        ensures
            match self {
                ClientError::IOError(_) => "IO error: "@.is_prefix_of(s@),
                ClientError::MPSCSend(_) => s@ == "MPSC send error: channel closed"@,
                ClientError::Tungstenite(_) => "tungstenite error: "@.is_prefix_of(s@),
                ClientError::SerdeJSON(_) => "serde_JSON error: "@.is_prefix_of(s@),
                ClientError::ServerError(desc) => s@ == "server error: "@ + desc@,
                ClientError::Connected => s@ == "connected: please disconnect first"@,
                ClientError::Disconnected => s@ == "disconnected: please connect first"@,
                ClientError::Unauthenticated => s@ == "unauthenticated: please login first"@,
                ClientError::InvalidMessage => s@
                    == "invalid message: this should not have happened"@,
            },
    {
        match self {
            ClientError::IOError(err) => {
                let detail = io_error_text(err);
                join_text("IO error: ", detail.as_str())
            },
            ClientError::MPSCSend(_) => owned_text("MPSC send error: channel closed"),
            ClientError::Tungstenite(err) => {
                let detail = websocket_error_text(err);
                join_text("tungstenite error: ", detail.as_str())
            },
            ClientError::SerdeJSON(err) => {
                let detail = json_error_text(err);
                join_text("serde_JSON error: ", detail.as_str())
            },
            ClientError::ServerError(desc) => join_text("server error: ", desc.as_str()),
            ClientError::Connected => owned_text("connected: please disconnect first"),
            ClientError::Disconnected => owned_text("disconnected: please connect first"),
            ClientError::Unauthenticated => owned_text("unauthenticated: please login first"),
            ClientError::InvalidMessage => owned_text(
                "invalid message: this should not have happened",
            ),
        }
    }
}

impl From<std::io::Error> for ClientError {
    fn from(err: std::io::Error) -> (r: Self) {
        ClientError::IOError(err)
    }
}

impl vstd::std_specs::convert::FromSpecImpl<std::io::Error> for ClientError {
    open spec fn obeys_from_spec() -> bool {
        true
    }

    open spec fn from_spec(v: std::io::Error) -> Self {
        ClientError::IOError(v)
    }
}

impl From<tungstenite::error::Error> for ClientError {
    fn from(err: tungstenite::error::Error) -> (r: Self) {
        ClientError::Tungstenite(err)
    }
}

impl vstd::std_specs::convert::FromSpecImpl<tungstenite::error::Error> for ClientError {
    open spec fn obeys_from_spec() -> bool {
        true
    }

    open spec fn from_spec(v: tungstenite::error::Error) -> Self {
        ClientError::Tungstenite(v)
    }
}

impl From<serde_json::Error> for ClientError {
    fn from(err: serde_json::Error) -> (r: Self) {
        ClientError::SerdeJSON(err)
    }
}

impl vstd::std_specs::convert::FromSpecImpl<serde_json::Error> for ClientError {
    open spec fn obeys_from_spec() -> bool {
        true
    }

    open spec fn from_spec(v: serde_json::Error) -> Self {
        ClientError::SerdeJSON(v)
    }
}

} // verus!
