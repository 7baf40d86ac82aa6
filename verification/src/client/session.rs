use vstd::prelude::*;
use vstd::string::StringExecFns;

use crate::client::client_error::ClientError;
use crate::protocol::{
    ChatMessage, ChatMessageRequest, ChatMessageResponse, Message, UserLoginRequest,
    UserRegisterRequest, UserRegisterResponse,
};

verus! {

/// The current wall-clock time: `std::time::SystemTime::now()`. Nothing is claimed
/// of the value, which depends on the clock.
#[verifier::external_body]
fn current_time() -> std::time::SystemTime {
    std::time::SystemTime::now()
}

/// What the task that reads from the server does with a message it decoded.
pub enum Incoming {
    /// A chat message from another user: hand it to the chat message callback.
    Chat(ChatMessage),
    /// Any other message: hand it to the operation that waits for a reply.
    Reply(Message),
}

/// Sorts a decoded message from the server: chat messages go to the callback,
/// everything else to the waiting operation.
pub fn route_incoming(message: Message) -> (r: Incoming)
    ensures
        match message {
            Message::ChatMessage(chat_msg) => r == Incoming::Chat(chat_msg),
            _ => r == Incoming::Reply(message),
        },
{
    match message {
        Message::ChatMessage(chat_msg) => Incoming::Chat(chat_msg),
        message => Incoming::Reply(message),
    }
}

/// What the sending task reports to the waiting operation once it has closed the
/// connection: the disconnect succeeded, or closing failed with this error.
pub fn close_report(closed: Result<(), tungstenite::error::Error>) -> (r: Result<
    Message,
    ClientError,
>)
    ensures
        match closed {
            Ok(_) => r == Ok::<Message, ClientError>(Message::DisconnectSuccess),
            Err(err) => r == Err::<Message, ClientError>(ClientError::Tungstenite(err)),
        },
{
    match closed {
        Ok(_) => Ok(Message::DisconnectSuccess),
        Err(err) => Err(ClientError::Tungstenite(err)),
    }
}

/// The result of an operation whose reply carries an optional server error,
/// given the reply that came back (`None` when no reply could come).
pub open spec fn expect_ack(
    reply: Option<Result<Message, ClientError>>,
    error: spec_fn(Message) -> Option<Option<String>>,
) -> Result<(), ClientError> {
    match reply {
        Some(Ok(m)) => match error(m) {
            Some(Some(desc)) => Err(ClientError::ServerError(desc)),
            Some(None) => Ok(()),
            None => Err(ClientError::InvalidMessage),
        },
        Some(Err(err)) => Err(err),
        None => Err(ClientError::InvalidMessage),
    }
}

/// The error field of a registration response; `None` for any other message.
pub open spec fn register_ack(m: Message) -> Option<Option<String>> {
    match m {
        Message::UserRegisterResponse(res) => Some(res.error),
        _ => None,
    }
}

/// The error field of a chat message response; `None` for any other message.
pub open spec fn chat_ack(m: Message) -> Option<Option<String>> {
    match m {
        Message::ChatMessageResponse(res) => Some(res.error),
        _ => None,
    }
}

/// A reply that carries an error text is reported as that server error, and only
/// a reply of the expected kind without an error text counts as success: for
/// registrations and for chat messages alike.
pub proof fn law_reply_error_is_reported(error: Option<String>)
    ensures
        ({
            let reg = Some(
                Ok::<Message, ClientError>(
                    Message::UserRegisterResponse(UserRegisterResponse { error }),
                ),
            );
            let chat = Some(
                Ok::<Message, ClientError>(
                    Message::ChatMessageResponse(ChatMessageResponse { error }),
                ),
            );
            &&& error matches Some(desc) ==> expect_ack(reg, |m: Message| register_ack(m)) == Err::<
                (),
                ClientError,
            >(ClientError::ServerError(desc))
            &&& error matches Some(desc) ==> expect_ack(chat, |m: Message| chat_ack(m)) == Err::<
                (),
                ClientError,
            >(ClientError::ServerError(desc))
            &&& error is None ==> expect_ack(reg, |m: Message| register_ack(m)) == Ok::<
                (),
                ClientError,
            >(())
            &&& error is None ==> expect_ack(chat, |m: Message| chat_ack(m)) == Ok::<
                (),
                ClientError,
            >(())
        }),
{
}

/// A reply of the wrong kind, or none, is never a success.
pub proof fn law_wrong_reply_is_invalid(reply: Option<Result<Message, ClientError>>)
    ensures
        !(reply matches Some(Ok(Message::UserRegisterResponse(_)))) && !(reply matches Some(Err(_)))
            ==> expect_ack(reply, |m: Message| register_ack(m)) == Err::<(), ClientError>(
            ClientError::InvalidMessage,
        ),
        !(reply matches Some(Ok(Message::ChatMessageResponse(_)))) && !(reply matches Some(Err(_)))
            ==> expect_ack(reply, |m: Message| chat_ack(m)) == Err::<(), ClientError>(
            ClientError::InvalidMessage,
        ),
{
}

/// What the client keeps between operations: the session token of its login.
pub struct ClientState {
    token: Option<String>,
}

impl ClientState {
    /// The session token, once a login succeeded.
    pub closed spec fn session_token(&self) -> Option<String> {
        self.token
    }

    /// A client that has not logged in.
    pub fn new() -> (c: Self)
        ensures
            c.session_token() == None::<String>,
    {
        ClientState { token: None }
    }

    /// The session token, once a login succeeded.
    pub fn token(&self) -> (t: &Option<String>)
        ensures
            *t == self.session_token(),
    {
        &self.token
    }

    /// A connection may be opened only when the previous one has finished.
    pub fn check_connect(is_done: bool) -> (r: Result<(), ClientError>)
        ensures
            if is_done {
                r == Ok::<(), ClientError>(())
            } else {
                r == Err::<(), ClientError>(ClientError::Connected)
            },
    {
        if !is_done {
            return Err(ClientError::Connected);
        }
        Ok(())
    }

    /// A connection may be closed only while it is running.
    pub fn check_disconnect(is_done: bool) -> (r: Result<(), ClientError>)
        ensures
            if is_done {
                r == Err::<(), ClientError>(ClientError::Disconnected)
            } else {
                r == Ok::<(), ClientError>(())
            },
    {
        if is_done {
            return Err(ClientError::Disconnected);
        }
        Ok(())
    }

    /// The result of closing the connection, given what the sending task reported.
    pub fn disconnect_reply(reply: Option<Result<Message, ClientError>>) -> (r: Result<
        (),
        ClientError,
    >)
        ensures
            match reply {
                Some(Ok(Message::DisconnectSuccess)) => r == Ok::<(), ClientError>(()),
                Some(Err(err)) => r == Err::<(), ClientError>(err),
                _ => r == Err::<(), ClientError>(ClientError::InvalidMessage),
            },
    {
        match reply {
            Some(Ok(Message::DisconnectSuccess)) => Ok(()),
            Some(Err(err)) => Err(err),
            Some(_) => Err(ClientError::InvalidMessage),
            None => Err(ClientError::InvalidMessage),
        }
    }

    /// The request that registers `username` with `password`, if the connection runs.
    pub fn register_request(is_done: bool, username: &str, password: &str) -> (r: Result<
        Message,
        ClientError,
    >)
        ensures
            is_done ==> r == Err::<Message, ClientError>(ClientError::Disconnected),
            !is_done ==> (r matches Ok(Message::UserRegisterRequest(req)) && req.username@
                == username@ && req.password@ == password@),
    {
        if is_done {
            return Err(ClientError::Disconnected);
        }
        Ok(
            Message::UserRegisterRequest(
                UserRegisterRequest {
                    username: String::from_str(username),
                    password: String::from_str(password),
                },
            ),
        )
    }

    /// The result of a registration, given the reply that came back.
    pub fn register_reply(reply: Option<Result<Message, ClientError>>) -> (r: Result<
        (),
        ClientError,
    >)
        ensures
            r == expect_ack(reply, |m: Message| register_ack(m)),
            match reply {
                Some(Ok(Message::UserRegisterResponse(res))) => match res.error {
                    Some(desc) => r == Err::<(), ClientError>(ClientError::ServerError(desc)),
                    None => r == Ok::<(), ClientError>(()),
                },
                Some(Err(err)) => r == Err::<(), ClientError>(err),
                _ => r == Err::<(), ClientError>(ClientError::InvalidMessage),
            },
    {
        match reply {
            Some(Ok(Message::UserRegisterResponse(res))) => {
                if let Some(desc) = res.error {
                    Err(ClientError::ServerError(desc))
                } else {
                    Ok(())
                }
            },
            Some(Err(err)) => Err(err),
            Some(_) => Err(ClientError::InvalidMessage),
            None => Err(ClientError::InvalidMessage),
        }
    }

    /// The request that logs `username` in with `password`, if the connection runs.
    pub fn login_request(is_done: bool, username: &str, password: &str) -> (r: Result<
        Message,
        ClientError,
    >)
        ensures
            is_done ==> r == Err::<Message, ClientError>(ClientError::Disconnected),
            !is_done ==> (r matches Ok(Message::UserLoginRequest(req)) && req.username@
                == username@ && req.password@ == password@),
    {
        if is_done {
            return Err(ClientError::Disconnected);
        }
        Ok(
            Message::UserLoginRequest(
                UserLoginRequest {
                    username: String::from_str(username),
                    password: String::from_str(password),
                },
            ),
        )
    }

    /// The result of a login, given the reply that came back; a token that came
    /// back is kept for later chat messages.
    pub fn login_reply(&mut self, reply: Option<Result<Message, ClientError>>) -> (r: Result<
        (),
        ClientError,
    >)
        ensures
            match reply {
                Some(Ok(Message::UserLoginResponse(res))) => match (res.error, res.session_token) {
                    (Some(desc), _) => r == Err::<(), ClientError>(ClientError::ServerError(desc))
                        && final(self).session_token() == old(self).session_token(),
                    (None, Some(token)) => r == Ok::<(), ClientError>(()) && final(self).session_token() == Some(token),
                    (None, None) => r == Err::<(), ClientError>(ClientError::InvalidMessage)
                        && final(self).session_token() == old(self).session_token(),
                },
                Some(Err(err)) => r == Err::<(), ClientError>(err) && final(self).session_token()
                    == old(self).session_token(),
                _ => r == Err::<(), ClientError>(ClientError::InvalidMessage) && final(self).session_token() == old(self).session_token(),
            },
    {
        match reply {
            Some(Ok(Message::UserLoginResponse(res))) => {
                if let Some(desc) = res.error {
                    Err(ClientError::ServerError(desc))
                } else if let Some(token) = res.session_token {
                    self.token = Some(token);
                    Ok(())
                } else {
                    Err(ClientError::InvalidMessage)
                }
            },
            Some(Err(err)) => Err(err),
            Some(_) => Err(ClientError::InvalidMessage),
            None => Err(ClientError::InvalidMessage),
        }
    }

    /// The request that sends `message` to `dest_user` at `send_time`, if the
    /// connection runs and the client has logged in.
    pub fn message_request(
        &self,
        is_done: bool,
        dest_user: &str,
        message: &str,
        send_time: std::time::SystemTime,
    ) -> (r: Result<Message, ClientError>)
        ensures
            is_done ==> r == Err::<Message, ClientError>(ClientError::Disconnected),
            !is_done && self.session_token() is None ==> r == Err::<Message, ClientError>(
                ClientError::Unauthenticated,
            ),
            !is_done && self.session_token() is Some ==> (r matches Ok(
                Message::ChatMessageRequest(req),
            ) && req.session_token == self.session_token()->0 && req.dest_user@ == dest_user@
                && req.content@ == message@ && req.send_time == send_time),
    {
        if is_done {
            return Err(ClientError::Disconnected);
        }
        match &self.token {
            None => Err(ClientError::Unauthenticated),
            Some(token) => Ok(
                Message::ChatMessageRequest(
                    ChatMessageRequest {
                        session_token: token.clone(),
                        send_time,
                        dest_user: String::from_str(dest_user),
                        content: String::from_str(message),
                    },
                ),
            ),
        }
    }

    /// As `message_request`, stamped with the current time.
    pub fn new_message_request(&self, is_done: bool, dest_user: &str, message: &str) -> (r: Result<
        Message,
        ClientError,
    >)
        ensures
            is_done ==> r == Err::<Message, ClientError>(ClientError::Disconnected),
            !is_done && self.session_token() is None ==> r == Err::<Message, ClientError>(
                ClientError::Unauthenticated,
            ),
            !is_done && self.session_token() is Some ==> (r matches Ok(
                Message::ChatMessageRequest(req),
            ) && req.session_token == self.session_token()->0 && req.dest_user@ == dest_user@
                && req.content@ == message@),
    {
        let now = current_time();
        self.message_request(is_done, dest_user, message, now)
    }

    /// The result of sending a chat message, given the reply that came back.
    pub fn message_reply(reply: Option<Result<Message, ClientError>>) -> (r: Result<
        (),
        ClientError,
    >)
        ensures
            r == expect_ack(reply, |m: Message| chat_ack(m)),
            match reply {
                Some(Ok(Message::ChatMessageResponse(res))) => match res.error {
                    Some(desc) => r == Err::<(), ClientError>(ClientError::ServerError(desc)),
                    None => r == Ok::<(), ClientError>(()),
                },
                Some(Err(err)) => r == Err::<(), ClientError>(err),
                _ => r == Err::<(), ClientError>(ClientError::InvalidMessage),
            },
    {
        match reply {
            Some(Ok(Message::ChatMessageResponse(res))) => {
                if let Some(desc) = res.error {
                    Err(ClientError::ServerError(desc))
                } else {
                    Ok(())
                }
            },
            Some(Err(err)) => Err(err),
            Some(_) => Err(ClientError::InvalidMessage),
            None => Err(ClientError::InvalidMessage),
        }
    }
}

} // verus!
