use vstd::prelude::*;

use crate::persistence::crud_error::{crud_error_text, CRUDError};
use crate::persistence::CRUD;
use crate::protocol::{
    message_from_request, ChatMessage, ChatMessageResponse, Message, UserLoginResponse,
    UserRegisterResponse,
};
use crate::server::account_error::{account_error_text, AccountError};
use crate::server::account_manager::{
    check_credentials, create_account_outcome, is_hyphenated_uuid, open_session_outcome,
    username_by_token, Account, AccountManager,
};

verus! {

/// What a connection does after the server has looked at a message from its client.
pub enum ServerAction<S> {
    /// Send this message back to the client.
    Reply(Message),
    /// Put this message in the given outbox of another user's connection, then
    /// reply to the client with `delivery_response` of how that went.
    Forward(S, Message),
    /// Nothing to send.
    Ignore,
}

/// The views of an optional string.
pub open spec fn opt_view(o: Option<String>) -> Option<Seq<char>> {
    match o {
        Some(s) => Some(s@),
        None => None,
    }
}

/// The error text that answers a registration with the given outcome.
pub open spec fn register_error(outcome: Result<(), CRUDError>) -> Option<Seq<char>> {
    match outcome {
        Ok(_) => None,
        Err(e) => Some(crud_error_text(e)),
    }
}

/// Whether `res` answers a login with the given outcome.
pub open spec fn answers_login(res: UserLoginResponse, outcome: Result<String, AccountError>) -> bool {
    match outcome {
        Ok(token) => res.session_token == Some(token) && res.error == None::<String>,
        Err(e) => res.session_token == None::<String> && opt_view(res.error) == Some(
            account_error_text(e),
        ),
    }
}

/// Whether `action` answers with a chat message response whose error reads `text`.
pub open spec fn chat_reply_with(action: Message, text: Option<Seq<char>>) -> bool {
    &&& action matches Message::ChatMessageResponse(res)
    &&& opt_view(res.error) == text
}

/// A registration is answered without an error text exactly when it succeeded,
/// and otherwise with the text of the store's error.
pub proof fn law_register_answer(outcome: Result<(), CRUDError>)
    ensures
        register_error(outcome) is None <==> outcome is Ok,
        outcome matches Err(e) ==> register_error(outcome) == Some(crud_error_text(e)),
{
}

/// A login answer carries a token exactly when the login succeeded, and then the
/// login's token and no error; a failed login is answered with its error text.
pub proof fn law_login_answer(res: UserLoginResponse, outcome: Result<String, AccountError>)
    requires
        answers_login(res, outcome),
    ensures
        res.session_token is Some <==> outcome is Ok,
        res.error is Some <==> outcome is Err,
        outcome matches Ok(token) ==> res.session_token == Some(token),
        outcome matches Err(e) ==> res.error matches Some(text) && text@ == account_error_text(e),
{
}

/// A chat reply with an error text carries exactly that text.
pub proof fn law_chat_reply(action: Message, text: Seq<char>)
    requires
        chat_reply_with(action, Some(text)),
    ensures
        action matches Message::ChatMessageResponse(res) && res.error matches Some(e) && e@ == text,
{
}

/// The message that answers a chat message request, given how handing the chat
/// message to the receiver went.
pub fn delivery_response(delivery: Result<(), String>) -> (m: Message)
    ensures
        match delivery {
            Ok(_) => m == Message::ChatMessageResponse(ChatMessageResponse { error: None }),
            Err(e) => m == Message::ChatMessageResponse(ChatMessageResponse { error: Some(e) }),
        },
{
    match delivery {
        Ok(_) => Message::ChatMessageResponse(ChatMessageResponse { error: None }),
        Err(e) => Message::ChatMessageResponse(ChatMessageResponse { error: Some(e) }),
    }
}

/// Decides what to do with a message that the client on this connection sent;
/// `my_sender` is this connection's outbox, which a login registers.
///
/// A registration creates the account and is answered with the store's error,
/// if any. A login checks the credentials and opens a session under a fresh
/// token, and is answered with the token or the error (also when no token could
/// be drawn). A chat message request
/// with a known session token, to a logged-in user, is forwarded to that user's
/// outbox as a chat message from the session's user; otherwise it is answered
/// with the error. Other messages are ignored.
pub fn handle_client_message<D: CRUD<String, Account, CRUDError>, S: Clone>(
    manager: &mut AccountManager<D, S>,
    message: Message,
    my_sender: S,
) -> (action: ServerAction<S>)
    ensures
        match message {
            Message::UserRegisterRequest(req) => {
                &&& final(manager)@.database.contents() == old(
                    manager,
                )@.database.contents().insert(
                    req.username@,
                    Account { username: req.username, password: req.password },
                )
                &&& final(manager)@.sessions == old(manager)@.sessions
                &&& final(manager)@.senders == old(manager)@.senders
                &&& action matches ServerAction::Reply(Message::UserRegisterResponse(res))
                &&& opt_view(res.error) == register_error(
                    create_account_outcome(old(manager)@, req.username, req.password),
                )
            },
            Message::UserLoginRequest(req) => match check_credentials(
                old(manager)@,
                req.username@,
                req.password@,
            ) {
                Err(e) => {
                    &&& final(manager)@ == old(manager)@
                    &&& action matches ServerAction::Reply(Message::UserLoginResponse(res))
                    &&& answers_login(res, Err(e))
                },
                Ok(_) => ({
                    &&& final(manager)@ == old(manager)@
                    &&& action matches ServerAction::Reply(Message::UserLoginResponse(res))
                    &&& answers_login(res, Err(AccountError::TokenUnavailable))
                }) || exists|token: String|
                    #![trigger is_hyphenated_uuid(token@)]
                    {
                        let (after, outcome) = open_session_outcome(
                            old(manager)@,
                            req.username,
                            my_sender,
                            token,
                        );
                        &&& is_hyphenated_uuid(token@)
                        &&& final(manager)@ == after
                        &&& action matches ServerAction::Reply(Message::UserLoginResponse(res))
                        &&& answers_login(res, outcome)
                    },
            },
            Message::ChatMessageRequest(req) => {
                &&& final(manager)@ == old(manager)@
                &&& match username_by_token(old(manager)@, req.session_token@) {
                    Err(e) => action matches ServerAction::Reply(m) && chat_reply_with(
                        m,
                        Some(account_error_text(e)),
                    ),
                    Ok(src_user) => if old(manager)@.senders.contains_key(req.dest_user@) {
                        &&& action matches ServerAction::Forward(dest, m)
                        &&& cloned(old(manager)@.senders[req.dest_user@], dest)
                        &&& m matches Message::ChatMessage(chat_msg)
                        &&& chat_msg.src_user@ == src_user
                        &&& chat_msg == message_from_request(req, chat_msg.src_user)
                    } else {
                        &&& action matches ServerAction::Reply(m)
                        &&& chat_reply_with(
                            m,
                            Some(account_error_text(AccountError::CrudError(CRUDError::NotFound))),
                        )
                    },
                }
            },
            _ => final(manager)@ == old(manager)@ && action is Ignore,
        },
{
    match message {
        Message::UserRegisterRequest(req) => {
            let res = match manager.create_account(req.username, req.password) {
                Ok(_) => UserRegisterResponse { error: None },
                Err(err) => UserRegisterResponse { error: Some(err.to_string()) },
            };
            ServerAction::Reply(Message::UserRegisterResponse(res))
        },
        Message::UserLoginRequest(req) => {
            let res = match manager.create_session(req.username, req.password, my_sender) {
                Ok(token) => UserLoginResponse { session_token: Some(token), error: None },
                Err(err) => UserLoginResponse { session_token: None, error: Some(err.to_string()) },
            };
            ServerAction::Reply(Message::UserLoginResponse(res))
        },
        Message::ChatMessageRequest(req) => {
            match manager.get_username_by_token(&req.session_token) {
                Ok(src_user) => match manager.get_sender_by_username(&req.dest_user) {
                    Ok(sender) => {
                        let chat_msg = ChatMessage::from_request(req, src_user);
                        ServerAction::Forward(sender, Message::ChatMessage(chat_msg))
                    },
                    Err(err) => ServerAction::Reply(
                        Message::ChatMessageResponse(
                            ChatMessageResponse { error: Some(err.to_string()) },
                        ),
                    ),
                },
                Err(err) => ServerAction::Reply(
                    Message::ChatMessageResponse(ChatMessageResponse { error: Some(err.to_string()) }),
                ),
            }
        },
        _ => ServerAction::Ignore,
    }
}

} // verus!
