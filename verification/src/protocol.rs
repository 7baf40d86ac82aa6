use vstd::prelude::*;

pub mod error;

verus! {

/// The wall-clock time at which a chat message was sent; carried through unchanged.
#[verifier::external_type_specification]
#[verifier::external_body]
pub struct ExSystemTime(std::time::SystemTime);

/// Every message that client and server exchange.
#[derive(Debug)]
pub enum Message {
    UserRegisterRequest(UserRegisterRequest),
    UserRegisterResponse(UserRegisterResponse),
    UserLoginRequest(UserLoginRequest),
    UserLoginResponse(UserLoginResponse),
    ChatMessageRequest(ChatMessageRequest),
    ChatMessageResponse(ChatMessageResponse),
    ChatMessage(ChatMessage),
    DisconnectSuccess,
}

#[derive(Debug)]
pub struct UserRegisterRequest {
    pub username: String,
    pub password: String,
}

#[derive(Debug)]
pub struct UserRegisterResponse {
    pub error: Option<String>,
}

#[derive(Debug)]
pub struct UserLoginRequest {
    pub username: String,
    pub password: String,
}

#[derive(Debug)]
pub struct UserLoginResponse {
    pub session_token: Option<String>,
    pub error: Option<String>,
}

/// A chat message as the sender hands it to the server.
#[derive(Debug)]
pub struct ChatMessageRequest {
    pub session_token: String,
    pub send_time: std::time::SystemTime,
    pub dest_user: String,
    pub content: String,
}

/// The server's acknowledgement of a chat message request.
#[derive(Debug)]
pub struct ChatMessageResponse {
    pub error: Option<String>,
}

/// A chat message as the server hands it to the receiver.
#[derive(Debug)]
pub struct ChatMessage {
    pub src_user: String,
    pub send_time: std::time::SystemTime,
    pub content: String,
}

/// What one read from a WebSocket stream gave.
pub enum Frame {
    /// A text frame with this text.
    Text(String),
    /// A close frame.
    Close,
    /// The read failed.
    Failed,
    /// The stream has ended.
    Ended,
    /// Any other kind of frame.
    Other,
}

/// What a connection's reading loop does next.
pub enum FrameStep {
    /// Decode and act on this text.
    Process(String),
    /// Leave the loop.
    Stop,
    /// Read on.
    Skip,
}

/// The reading loops of both ends act on text frames, stop on a close frame, a
/// failed read or the end of the stream, and read on past any other frame.
pub fn frame_step(frame: Frame) -> (step: FrameStep)
    ensures
        match frame {
            Frame::Text(text) => step == FrameStep::Process(text),
            Frame::Close | Frame::Failed | Frame::Ended => step is Stop,
            Frame::Other => step is Skip,
        },
{
    match frame {
        Frame::Text(text) => FrameStep::Process(text),
        Frame::Close => FrameStep::Stop,
        Frame::Failed => FrameStep::Stop,
        Frame::Ended => FrameStep::Stop,
        Frame::Other => FrameStep::Skip,
    }
}

/// The chat message that a request from `src_user` becomes.
pub open spec fn message_from_request(msg_req: ChatMessageRequest, src_user: String) -> ChatMessage {
    ChatMessage { src_user, send_time: msg_req.send_time, content: msg_req.content }
}

/// The chat message made from a request carries the request's send time and
/// content unchanged, and names the given sender, for every request.
pub proof fn law_chat_message_keeps_request(msg_req: ChatMessageRequest, src_user: String)
    ensures
        message_from_request(msg_req, src_user).src_user == src_user,
        message_from_request(msg_req, src_user).send_time == msg_req.send_time,
        message_from_request(msg_req, src_user).content == msg_req.content,
        message_from_request(msg_req, src_user).content@ == msg_req.content@,
{
}

impl ChatMessage {
    /// Turns a request into the message that its receiver gets: the sender's
    /// name, the send time and the content.
    pub fn from_request(msg_req: ChatMessageRequest, src_user: String) -> (m: Self)
        ensures
            m == message_from_request(msg_req, src_user),
            m.src_user == src_user,
            m.send_time == msg_req.send_time,
            m.content == msg_req.content,
    {
        ChatMessage { src_user, send_time: msg_req.send_time, content: msg_req.content }
    }

    pub fn from_request_pub(msg_req: ChatMessageRequest, src_user: String) -> (m: Self)
        ensures
            m == message_from_request(msg_req, src_user),
            m.src_user == src_user,
            m.send_time == msg_req.send_time,
            m.content == msg_req.content,
    {
        Self::from_request(msg_req, src_user)
    }
}

} // verus!
