use vstd::prelude::*;

use crate::client::client_error::{join_text, json_error_text, owned_text, websocket_error_text};
use crate::protocol::Message;

verus! {

/// Why an exchange of protocol messages failed.
#[derive(Debug)]
pub enum ProtocolError {
    /// The message that could not be handed to the task that sends it.
    TokioMPSC(Message),
    Tungstenite(tungstenite::error::Error),
    SerdeJSON(serde_json::Error),
    ServerError(String),
    Disconnected,
    Unauthenticated,
    InvalidMessage,
}

impl ProtocolError {
    /// Describes the error in words. Where the error carries an error of another
    /// library, its own description follows the prefix.
    pub fn to_string(&self) -> (s: String)
        ensures
            match self {
                ProtocolError::TokioMPSC(_) => s@ == "Tokio MPSC error: channel closed"@,
                ProtocolError::Tungstenite(_) => "Tungstenite error: "@.is_prefix_of(s@),
                ProtocolError::SerdeJSON(_) => "Serde_JSON error: "@.is_prefix_of(s@),
                ProtocolError::ServerError(desc) => s@ == "Internal Server Error: "@ + desc@,
                ProtocolError::Disconnected => s@ == "Disconnected: Please connect first"@,
                ProtocolError::Unauthenticated => s@ == "Unauthenticated: Please login first"@,
                ProtocolError::InvalidMessage => s@
                    == "Invalid Message: This should not have happened"@,
            },
    {
        match self {
            ProtocolError::TokioMPSC(_) => owned_text("Tokio MPSC error: channel closed"),
            ProtocolError::Tungstenite(err) => {
                let detail = websocket_error_text(err);
                join_text("Tungstenite error: ", detail.as_str())
            },
            ProtocolError::SerdeJSON(err) => {
                let detail = json_error_text(err);
                join_text("Serde_JSON error: ", detail.as_str())
            },
            ProtocolError::ServerError(desc) => join_text("Internal Server Error: ", desc.as_str()),
            ProtocolError::Disconnected => owned_text("Disconnected: Please connect first"),
            ProtocolError::Unauthenticated => owned_text("Unauthenticated: Please login first"),
            ProtocolError::InvalidMessage => owned_text(
                "Invalid Message: This should not have happened",
            ),
        }
    }
}

impl From<tungstenite::error::Error> for ProtocolError {
    fn from(err: tungstenite::error::Error) -> (r: Self) {
        ProtocolError::Tungstenite(err)
    }
}

impl vstd::std_specs::convert::FromSpecImpl<tungstenite::error::Error> for ProtocolError {
    open spec fn obeys_from_spec() -> bool {
        true
    }

    open spec fn from_spec(v: tungstenite::error::Error) -> Self {
        ProtocolError::Tungstenite(v)
    }
}

impl From<serde_json::Error> for ProtocolError {
    fn from(err: serde_json::Error) -> (r: Self) {
        ProtocolError::SerdeJSON(err)
    }
}

impl vstd::std_specs::convert::FromSpecImpl<serde_json::Error> for ProtocolError {
    open spec fn obeys_from_spec() -> bool {
        true
    }

    open spec fn from_spec(v: serde_json::Error) -> Self {
        ProtocolError::SerdeJSON(v)
    }
}

} // verus!
