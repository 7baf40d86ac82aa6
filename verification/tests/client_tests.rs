use chat::protocol::error::ProtocolError;
use chat::protocol::{frame_step, Frame, FrameStep};
use chat::client::client_error::ClientError;
use chat::client::session::{route_incoming, ClientState, Incoming};
use chat::protocol::{
    ChatMessage, ChatMessageResponse, Message, UserLoginResponse, UserRegisterResponse,
};
use std::time::{Duration, SystemTime};

fn s(text: &str) -> String {
    text.to_string()
}

#[test]
fn connect_and_disconnect_checks() {
    assert!(ClientState::check_connect(true).is_ok());
    assert!(matches!(ClientState::check_connect(false), Err(ClientError::Connected)));
    assert!(ClientState::check_disconnect(false).is_ok());
    assert!(matches!(ClientState::check_disconnect(true), Err(ClientError::Disconnected)));
}

#[test]
fn disconnect_replies() {
    assert!(ClientState::disconnect_reply(Some(Ok(Message::DisconnectSuccess))).is_ok());
    assert!(matches!(
        ClientState::disconnect_reply(Some(Ok(Message::ChatMessageResponse(ChatMessageResponse {
            error: None
        })))),
        Err(ClientError::InvalidMessage)
    ));
    assert!(matches!(ClientState::disconnect_reply(None), Err(ClientError::InvalidMessage)));
    assert!(matches!(
        ClientState::disconnect_reply(Some(Err(ClientError::Unauthenticated))),
        Err(ClientError::Unauthenticated)
    ));
}

#[test]
fn register_request_and_replies() {
    assert!(matches!(ClientState::register_request(true, "phi", "pass"), Err(ClientError::Disconnected)));
    match ClientState::register_request(false, "phi", "pass") {
        Ok(Message::UserRegisterRequest(req)) => {
            assert_eq!(req.username, "phi");
            assert_eq!(req.password, "pass");
        }
        _ => panic!(),
    }
    assert!(ClientState::register_reply(Some(Ok(Message::UserRegisterResponse(
        UserRegisterResponse { error: None }
    ))))
    .is_ok());
    match ClientState::register_reply(Some(Ok(Message::UserRegisterResponse(UserRegisterResponse {
        error: Some(s("entry already exists")),
    })))) {
        Err(ClientError::ServerError(desc)) => assert_eq!(desc, "entry already exists"),
        _ => panic!(),
    }
    assert!(matches!(
        ClientState::register_reply(Some(Ok(Message::DisconnectSuccess))),
        Err(ClientError::InvalidMessage)
    ));
    assert!(matches!(ClientState::register_reply(None), Err(ClientError::InvalidMessage)));
}

#[test]
fn login_keeps_token() {
    let mut c = ClientState::new();
    assert_eq!(*c.token(), None);
    match ClientState::login_request(false, "phi", "pass") {
        Ok(Message::UserLoginRequest(req)) => {
            assert_eq!(req.username, "phi");
            assert_eq!(req.password, "pass");
        }
        _ => panic!(),
    }
    assert!(matches!(ClientState::login_request(true, "phi", "pass"), Err(ClientError::Disconnected)));
    match c.login_reply(Some(Ok(Message::UserLoginResponse(UserLoginResponse {
        session_token: None,
        error: Some(s("wrong username/password")),
    })))) {
        Err(ClientError::ServerError(desc)) => assert_eq!(desc, "wrong username/password"),
        _ => panic!(),
    }
    assert_eq!(*c.token(), None);
    assert!(matches!(
        c.login_reply(Some(Ok(Message::UserLoginResponse(UserLoginResponse {
            session_token: None,
            error: None,
        })))),
        Err(ClientError::InvalidMessage)
    ));
    assert!(c
        .login_reply(Some(Ok(Message::UserLoginResponse(UserLoginResponse {
            session_token: Some(s("tok")),
            error: None,
        }))))
        .is_ok());
    assert_eq!(*c.token(), Some(s("tok")));
}

#[test]
fn message_needs_connection_and_login() {
    let mut c = ClientState::new();
    let time = SystemTime::UNIX_EPOCH + Duration::from_secs(9);
    assert!(matches!(c.message_request(true, "bob", "hi", time), Err(ClientError::Disconnected)));
    assert!(matches!(c.message_request(false, "bob", "hi", time), Err(ClientError::Unauthenticated)));
    c.login_reply(Some(Ok(Message::UserLoginResponse(UserLoginResponse {
        session_token: Some(s("tok")),
        error: None,
    }))))
    .unwrap();
    match c.message_request(false, "bob", "hi", time) {
        Ok(Message::ChatMessageRequest(req)) => {
            assert_eq!(req.session_token, "tok");
            assert_eq!(req.dest_user, "bob");
            assert_eq!(req.content, "hi");
            assert_eq!(req.send_time, time);
        }
        _ => panic!(),
    }
    match c.new_message_request(false, "bob", "now") {
        Ok(Message::ChatMessageRequest(req)) => {
            assert_eq!(req.session_token, "tok");
            assert_eq!(req.content, "now");
        }
        _ => panic!(),
    }
}

#[test]
fn message_replies() {
    assert!(ClientState::message_reply(Some(Ok(Message::ChatMessageResponse(ChatMessageResponse {
        error: None
    }))))
    .is_ok());
    match ClientState::message_reply(Some(Ok(Message::ChatMessageResponse(ChatMessageResponse {
        error: Some(s("CRUD error: could not find entry")),
    })))) {
        Err(ClientError::ServerError(desc)) => assert_eq!(desc, "CRUD error: could not find entry"),
        _ => panic!(),
    }
    assert!(matches!(
        ClientState::message_reply(Some(Ok(Message::UserRegisterResponse(UserRegisterResponse {
            error: None
        })))),
        Err(ClientError::InvalidMessage)
    ));
}

#[test]
fn incoming_messages_are_routed() {
    let chat = ChatMessage { src_user: s("bob"), send_time: SystemTime::UNIX_EPOCH, content: s("yo") };
    match route_incoming(Message::ChatMessage(chat)) {
        Incoming::Chat(c) => assert_eq!(c.content, "yo"),
        _ => panic!(),
    }
    match route_incoming(Message::DisconnectSuccess) {
        Incoming::Reply(Message::DisconnectSuccess) => {}
        _ => panic!(),
    }
}

#[test]
fn close_outcome_is_reported() {
    assert!(matches!(chat::client::session::close_report(Ok(())), Ok(Message::DisconnectSuccess)));
    let err = tungstenite::error::Error::ConnectionClosed;
    assert!(matches!(
        chat::client::session::close_report(Err(err)),
        Err(ClientError::Tungstenite(tungstenite::error::Error::ConnectionClosed))
    ));
}

#[test]
fn client_error_texts() {
    assert_eq!(ClientError::Connected.to_string(), "connected: please disconnect first");
    assert_eq!(ClientError::Disconnected.to_string(), "disconnected: please connect first");
    assert_eq!(ClientError::Unauthenticated.to_string(), "unauthenticated: please login first");
    assert_eq!(
        ClientError::InvalidMessage.to_string(),
        "invalid message: this should not have happened"
    );
    assert_eq!(ClientError::ServerError(s("boom")).to_string(), "server error: boom");
    assert_eq!(
        ClientError::MPSCSend(Message::DisconnectSuccess).to_string(),
        "MPSC send error: channel closed"
    );
    let io = std::io::Error::new(std::io::ErrorKind::Other, "disk gone");
    assert_eq!(ClientError::IOError(io).to_string(), "IO error: disk gone");
    assert_eq!(
        ClientError::Tungstenite(tungstenite::error::Error::ConnectionClosed).to_string(),
        "tungstenite error: Connection closed normally"
    );
    let json_err = serde_json::from_str::<u32>("x").unwrap_err();
    let expected = format!("serde_JSON error: {}", json_err);
    assert_eq!(ClientError::SerdeJSON(json_err).to_string(), expected);
}

#[test]
fn protocol_error_texts() {
    assert_eq!(ProtocolError::Disconnected.to_string(), "Disconnected: Please connect first");
    assert_eq!(ProtocolError::Unauthenticated.to_string(), "Unauthenticated: Please login first");
    assert_eq!(
        ProtocolError::InvalidMessage.to_string(),
        "Invalid Message: This should not have happened"
    );
    assert_eq!(ProtocolError::ServerError(s("x")).to_string(), "Internal Server Error: x");
    assert_eq!(
        ProtocolError::TokioMPSC(Message::DisconnectSuccess).to_string(),
        "Tokio MPSC error: channel closed"
    );
    assert_eq!(
        ProtocolError::Tungstenite(tungstenite::error::Error::ConnectionClosed).to_string(),
        "Tungstenite error: Connection closed normally"
    );
    let json_err = serde_json::from_str::<u32>("x").unwrap_err();
    let expected = format!("Serde_JSON error: {}", json_err);
    assert_eq!(ProtocolError::SerdeJSON(json_err).to_string(), expected);
}

#[test]
fn frames_decide_the_reading_loop() {
    match frame_step(Frame::Text(s("{}"))) {
        FrameStep::Process(t) => assert_eq!(t, "{}"),
        _ => panic!(),
    }
    assert!(matches!(frame_step(Frame::Close), FrameStep::Stop));
    assert!(matches!(frame_step(Frame::Failed), FrameStep::Stop));
    assert!(matches!(frame_step(Frame::Ended), FrameStep::Stop));
    assert!(matches!(frame_step(Frame::Other), FrameStep::Skip));
}
