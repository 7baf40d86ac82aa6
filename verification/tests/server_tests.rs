use chat::persistence::crud_error::CRUDError;
use chat::persistence::simple_file_db::SimpleFileDB;
use chat::persistence::CRUD;
use chat::protocol::{
    ChatMessage, ChatMessageRequest, Message, UserLoginRequest, UserRegisterRequest,
};
use chat::server::account_error::AccountError;
use chat::server::account_manager::{session_token_from_bytes, Account, AccountManager};
use chat::server::connection::{delivery_response, handle_client_message, ServerAction};
use std::time::{Duration, SystemTime};

type Db = SimpleFileDB<String, Account>;

fn s(text: &str) -> String {
    text.to_string()
}

fn manager() -> AccountManager<Db, u32> {
    AccountManager::new(SimpleFileDB::new(s("accounts.sdb")))
}

fn is_uuid_text(t: &str) -> bool {
    t.len() == 36
        && t.chars().enumerate().all(|(i, c)| {
            if i == 8 || i == 13 || i == 18 || i == 23 {
                c == '-'
            } else {
                c.is_ascii_digit() || ('a'..='f').contains(&c)
            }
        })
}

#[test]
fn account_error_texts() {
    assert_eq!(
        AccountError::CrudError(CRUDError::NotFound).to_string(),
        "CRUD error: could not find entry"
    );
    assert_eq!(
        AccountError::CrudError(CRUDError::AlreadyExists).to_string(),
        "CRUD error: entry already exists"
    );
    assert_eq!(AccountError::InvalidCredentials.to_string(), "wrong username/password");
    assert_eq!(AccountError::from(CRUDError::NotFound), AccountError::CrudError(CRUDError::NotFound));
}

#[test]
fn create_and_delete_account() {
    let mut m = manager();
    assert_eq!(m.create_account(s("phi"), s("pass")), Ok(()));
    assert_eq!(m.create_account(s("phi"), s("other")), Err(CRUDError::AlreadyExists));
    assert_eq!(m.database().read(&s("phi")).unwrap().password, "other");
    assert_eq!(m.delete_account(s("phi")), Ok(()));
    assert_eq!(m.delete_account(s("phi")), Err(CRUDError::NotFound));
}

#[test]
fn login_with_unknown_user_or_wrong_password_fails() {
    let mut m = manager();
    assert_eq!(
        m.create_session(s("nobody"), s("x"), 1),
        Err(AccountError::CrudError(CRUDError::NotFound))
    );
    m.create_account(s("phi"), s("pass")).unwrap();
    assert_eq!(
        m.create_session(s("phi"), s("wrong"), 1),
        Err(AccountError::InvalidCredentials)
    );
    assert_eq!(m.get_sender_by_username(&s("phi")), Err(AccountError::CrudError(CRUDError::NotFound)));
}

#[test]
fn login_opens_session_and_logout_closes_it() {
    let mut m = manager();
    m.create_account(s("phi"), s("pass")).unwrap();
    let token = m.create_session(s("phi"), s("pass"), 42).unwrap();
    assert!(is_uuid_text(&token));
    assert_eq!(m.get_username_by_token(&token), Ok(s("phi")));
    assert_eq!(m.get_sender_by_username(&s("phi")), Ok(42));
    assert_eq!(m.remove_session(&token), Ok(()));
    assert_eq!(
        m.get_username_by_token(&token),
        Err(AccountError::CrudError(CRUDError::NotFound))
    );
    assert_eq!(m.get_sender_by_username(&s("phi")), Err(AccountError::CrudError(CRUDError::NotFound)));
    assert_eq!(m.remove_session(&token), Err(AccountError::CrudError(CRUDError::NotFound)));
}

#[test]
fn second_login_of_same_user_is_reported_but_replaces_outbox() {
    let mut m = manager();
    m.create_account(s("phi"), s("pass")).unwrap();
    let first = m.create_session(s("phi"), s("pass"), 1).unwrap();
    assert_eq!(
        m.create_session(s("phi"), s("pass"), 2),
        Err(AccountError::CrudError(CRUDError::AlreadyExists))
    );
    assert_eq!(m.get_sender_by_username(&s("phi")), Ok(2));
    assert_eq!(m.get_username_by_token(&first), Ok(s("phi")));
}

#[test]
fn open_session_with_token_in_use() {
    let mut m = manager();
    assert_eq!(m.open_session(s("a"), 1, s("t")), Ok(s("t")));
    assert_eq!(
        m.open_session(s("b"), 2, s("t")),
        Err(AccountError::CrudError(CRUDError::AlreadyExists))
    );
    assert_eq!(m.get_username_by_token(&s("t")), Ok(s("b")));
    assert_eq!(m.get_sender_by_username(&s("b")), Err(AccountError::CrudError(CRUDError::NotFound)));
    assert_eq!(m.get_sender_by_username(&s("a")), Ok(1));
}

fn reply(action: ServerAction<u32>) -> Message {
    match action {
        ServerAction::Reply(m) => m,
        _ => panic!("expected a reply"),
    }
}

#[test]
fn server_register_and_login() {
    let mut m = manager();
    let r = reply(handle_client_message(
        &mut m,
        Message::UserRegisterRequest(UserRegisterRequest { username: s("phi"), password: s("pass") }),
        7,
    ));
    match r {
        Message::UserRegisterResponse(res) => assert_eq!(res.error, None),
        _ => panic!(),
    }
    let r = reply(handle_client_message(
        &mut m,
        Message::UserRegisterRequest(UserRegisterRequest { username: s("phi"), password: s("pass") }),
        7,
    ));
    match r {
        Message::UserRegisterResponse(res) => assert_eq!(res.error, Some(s("entry already exists"))),
        _ => panic!(),
    }
    let r = reply(handle_client_message(
        &mut m,
        Message::UserLoginRequest(UserLoginRequest { username: s("phi"), password: s("bad") }),
        7,
    ));
    match r {
        Message::UserLoginResponse(res) => {
            assert_eq!(res.session_token, None);
            assert_eq!(res.error, Some(s("wrong username/password")));
        }
        _ => panic!(),
    }
    let r = reply(handle_client_message(
        &mut m,
        Message::UserLoginRequest(UserLoginRequest { username: s("ghost"), password: s("x") }),
        7,
    ));
    match r {
        Message::UserLoginResponse(res) => {
            assert_eq!(res.session_token, None);
            assert_eq!(res.error, Some(s("CRUD error: could not find entry")));
        }
        _ => panic!(),
    }
    let r = reply(handle_client_message(
        &mut m,
        Message::UserLoginRequest(UserLoginRequest { username: s("phi"), password: s("pass") }),
        7,
    ));
    match r {
        Message::UserLoginResponse(res) => {
            assert_eq!(res.error, None);
            let token = res.session_token.unwrap();
            assert!(is_uuid_text(&token));
            assert_eq!(m.get_username_by_token(&token), Ok(s("phi")));
        }
        _ => panic!(),
    }
}

#[test]
fn server_forwards_chat_messages() {
    let mut m = manager();
    m.create_account(s("phi"), s("p1")).unwrap();
    m.create_account(s("bob"), s("p2")).unwrap();
    let phi_token = m.create_session(s("phi"), s("p1"), 10).unwrap();
    m.create_session(s("bob"), s("p2"), 20).unwrap();
    let time = SystemTime::UNIX_EPOCH + Duration::from_secs(1000);
    let req = ChatMessageRequest {
        session_token: phi_token.clone(),
        send_time: time,
        dest_user: s("bob"),
        content: s("hello"),
    };
    match handle_client_message(&mut m, Message::ChatMessageRequest(req), 10) {
        ServerAction::Forward(dest, Message::ChatMessage(chat_msg)) => {
            assert_eq!(dest, 20);
            assert_eq!(chat_msg.src_user, "phi");
            assert_eq!(chat_msg.content, "hello");
            assert_eq!(chat_msg.send_time, time);
        }
        _ => panic!("expected a forward"),
    }
    let to_offline = ChatMessageRequest {
        session_token: phi_token,
        send_time: time,
        dest_user: s("carol"),
        content: s("hi"),
    };
    match reply(handle_client_message(&mut m, Message::ChatMessageRequest(to_offline), 10)) {
        Message::ChatMessageResponse(res) => {
            assert_eq!(res.error, Some(s("CRUD error: could not find entry")))
        }
        _ => panic!(),
    }
    let bad_token = ChatMessageRequest {
        session_token: s("not-a-token"),
        send_time: time,
        dest_user: s("bob"),
        content: s("hi"),
    };
    match reply(handle_client_message(&mut m, Message::ChatMessageRequest(bad_token), 10)) {
        Message::ChatMessageResponse(res) => {
            assert_eq!(res.error, Some(s("CRUD error: could not find entry")))
        }
        _ => panic!(),
    }
}

#[test]
fn server_ignores_other_messages() {
    let mut m = manager();
    assert!(matches!(
        handle_client_message(&mut m, Message::DisconnectSuccess, 1),
        ServerAction::Ignore
    ));
}

#[test]
fn delivery_outcome_becomes_response() {
    match delivery_response(Ok(())) {
        Message::ChatMessageResponse(res) => assert_eq!(res.error, None),
        _ => panic!(),
    }
    match delivery_response(Err(s("channel closed"))) {
        Message::ChatMessageResponse(res) => assert_eq!(res.error, Some(s("channel closed"))),
        _ => panic!(),
    }
}

#[test]
fn chat_message_from_request() {
    let time = SystemTime::UNIX_EPOCH + Duration::from_secs(5);
    let req = ChatMessageRequest {
        session_token: s("t"),
        send_time: time,
        dest_user: s("bob"),
        content: s("hey"),
    };
    let msg = ChatMessage::from_request(req, s("phi"));
    assert_eq!(msg.src_user, "phi");
    assert_eq!(msg.content, "hey");
    assert_eq!(msg.send_time, time);
    let req2 = ChatMessageRequest {
        session_token: s("t"),
        send_time: time,
        dest_user: s("bob"),
        content: s("again"),
    };
    let msg2 = ChatMessage::from_request_pub(req2, s("ann"));
    assert_eq!(msg2.src_user, "ann");
    assert_eq!(msg2.content, "again");
}

#[test]
fn token_unavailable_text() {
    assert_eq!(AccountError::TokenUnavailable.to_string(), "could not create a session token");
}

#[test]
fn session_tokens_from_bytes() {
    assert_eq!(session_token_from_bytes([0u8; 16]), "00000000-0000-4000-8000-000000000000");
    assert_eq!(session_token_from_bytes([0xffu8; 16]), "ffffffff-ffff-4fff-bfff-ffffffffffff");
    let bytes: [u8; 16] = [
        0x67, 0xe5, 0x50, 0x44, 0x10, 0xb1, 0x42, 0x6f, 0x92, 0x47, 0xbb, 0x68, 0x0e, 0x5f, 0xe0,
        0xc8,
    ];
    assert_eq!(session_token_from_bytes(bytes), "67e55044-10b1-426f-9247-bb680e5fe0c8");
    let t = session_token_from_bytes([0x12u8; 16]);
    assert_eq!(t, "12121212-1212-4212-9212-121212121212");
    assert!(is_uuid_text(&t));
}
