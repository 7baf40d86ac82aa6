use vstd::prelude::*;

use crate::keyed_map::KeyedMap;
use crate::persistence::crud_error::CRUDError;
use crate::persistence::CRUD;
use crate::server::account_error::AccountError;

verus! {

/// A registered user.
#[derive(Debug)]
pub struct Account {
    pub username: String,
    pub password: String,
}

/// A logged-in user, found by the token that the login handed out.
#[derive(Debug)]
pub struct Session {
    pub username: String,
    pub token: String,
}

/// Whether `c` is a digit or one of the letters `a` to `f`.
pub open spec fn is_lower_hex_digit(c: char) -> bool {
    ('0' <= c && c <= '9') || ('a' <= c && c <= 'f')
}

/// Whether `s` is a UUID written as lower-case hexadecimal digits in groups of
/// 8, 4, 4, 4 and 12, joined by hyphens.
pub open spec fn is_hyphenated_uuid(s: Seq<char>) -> bool {
    &&& s.len() == 36
    &&& forall|i: int|
        0 <= i < 36 ==> if i == 8 || i == 13 || i == 18 || i == 23 {
            #[trigger] s[i] == '-'
        } else {
            is_lower_hex_digit(s[i])
        }
}

/// The lower-case hexadecimal digits, by value.
pub open spec fn lower_hex_digits() -> Seq<char> {
    seq!['0', '1', '2', '3', '4', '5', '6', '7', '8', '9', 'a', 'b', 'c', 'd', 'e', 'f']
}

/// The bytes of the random UUID (version 4, RFC 4122 variant) made from the 16
/// bytes `b`: the high nibble of byte 6 becomes 4, the two top bits of byte 8
/// become `10`.
pub open spec fn v4_uuid_bytes(b: Seq<u8>) -> Seq<u8> {
    b.update(6, (b[6] & 0x0f) | 0x40).update(8, (b[8] & 0x3f) | 0x80)
}

/// The `k`-th hexadecimal digit of the bytes `b`, the high nibble of each byte first.
pub open spec fn hex_digit_of(b: Seq<u8>, k: int) -> char {
    let byte = b[k / 2];
    lower_hex_digits()[(if k % 2 == 0 { byte >> 4 } else { byte & 0x0f }) as int]
}

/// The position among the 32 digits of the character at `i` of the hyphenated form.
pub open spec fn digit_position(i: int) -> int {
    if i < 8 {
        i
    } else if i < 13 {
        i - 1
    } else if i < 18 {
        i - 2
    } else if i < 23 {
        i - 3
    } else {
        i - 4
    }
}

/// The UUID with the bytes `b`, in lower-case hyphenated form.
pub open spec fn hyphenated_text(b: Seq<u8>) -> Seq<char> {
    Seq::new(
        36,
        |i: int|
            if i == 8 || i == 13 || i == 18 || i == 23 {
                '-'
            } else {
                hex_digit_of(b, digit_position(i))
            },
    )
}

/// The hyphenated form of any 16 bytes is a hyphenated UUID text.
pub proof fn lemma_hyphenated_text_is_uuid(b: Seq<u8>)
    requires
        b.len() == 16,
    ensures
        is_hyphenated_uuid(hyphenated_text(b)),
{
    let digits = lower_hex_digits();
    assert forall|n: int| 0 <= n < 16 implies is_lower_hex_digit(#[trigger] digits[n]) by {
        assert(digits[0] == '0' && digits[1] == '1' && digits[2] == '2' && digits[3] == '3');
        assert(digits[4] == '4' && digits[5] == '5' && digits[6] == '6' && digits[7] == '7');
        assert(digits[8] == '8' && digits[9] == '9' && digits[10] == 'a' && digits[11] == 'b');
        assert(digits[12] == 'c' && digits[13] == 'd' && digits[14] == 'e' && digits[15] == 'f');
    }
    assert forall|x: u8| #![trigger x >> 4u8] (x >> 4u8) < 16 && (x & 0x0fu8) < 16 by {
        assert((x >> 4u8) < 16 && (x & 0x0fu8) < 16) by (bit_vector);
    }
    let t = hyphenated_text(b);
    assert forall|i: int|
        0 <= i < 36 implies if i == 8 || i == 13 || i == 18 || i == 23 {
        #[trigger] t[i] == '-'
    } else {
        is_lower_hex_digit(t[i])
    } by {
        if !(i == 8 || i == 13 || i == 18 || i == 23) {
            let k = digit_position(i);
            let byte = b[k / 2];
            assert((byte >> 4u8) < 16 && (byte & 0x0fu8) < 16);
            let n = (if k % 2 == 0 { byte >> 4 } else { byte & 0x0f }) as int;
            assert(is_lower_hex_digit(digits[n]));
        }
    }
}

/// Sixteen bytes from the operating system's random source: `getrandom::fill`
/// on a zeroed buffer, `None` when it reports an error. Nothing is claimed of
/// which bytes come out.
#[verifier::external_body]
fn random_bytes() -> (r: Option<[u8; 16]>) {
    let mut bytes = [0u8; 16];
    match getrandom::fill(&mut bytes) {
        Ok(()) => Some(bytes),
        Err(_) => None,
    }
}

/// `uuid::Builder::from_random_bytes(bytes).into_uuid()` written out by its
/// `Display` impl: the builder sets the version and variant bits as
/// `v4_uuid_bytes` says, and `Display` writes the lower-case hyphenated form.
#[verifier::external_body]
fn uuid_v4_text(bytes: [u8; 16]) -> (s: String)
    ensures
        s@ == hyphenated_text(v4_uuid_bytes(bytes@)),
{
    uuid::Builder::from_random_bytes(bytes).into_uuid().to_string()
}

/// The session token made from 16 random bytes: the version-4 UUID they give,
/// in lower-case hyphenated form.
pub fn session_token_from_bytes(bytes: [u8; 16]) -> (token: String)
    ensures
        token@ == hyphenated_text(v4_uuid_bytes(bytes@)),
        is_hyphenated_uuid(token@),
{
    let token = uuid_v4_text(bytes);
    proof {
        lemma_hyphenated_text_is_uuid(v4_uuid_bytes(bytes@));
    }
    token
}

/// What an account manager holds: the account store, the sessions by token and the
/// outbox of each logged-in user by user name.
pub struct AccountsView<D, S> {
    pub database: D,
    pub sessions: Map<Seq<char>, Session>,
    pub senders: Map<Seq<char>, S>,
}

/// Registers and logs in users, and keeps the session and the outbox of each
/// logged-in user.
pub struct AccountManager<D, S> {
    database: D,
    senders_by_username: KeyedMap<String, S>,
    sessions_by_token: KeyedMap<String, Session>,
}

impl<D: CRUD<String, Account, CRUDError>, S> View for AccountManager<D, S> {
    type V = AccountsView<D, S>;

    closed spec fn view(&self) -> AccountsView<D, S> {
        AccountsView {
            database: self.database,
            sessions: self.sessions_by_token@,
            senders: self.senders_by_username@,
        }
    }
}

/// The outcome of registering `username` with `password`.
pub open spec fn create_account_outcome<D: CRUD<String, Account, CRUDError>, S>(
    v: AccountsView<D, S>,
    username: String,
    password: String,
) -> Result<(), CRUDError> {
    if v.database.contents().contains_key(username@) {
        Err(D::already_exists_error())
    } else {
        Ok(())
    }
}

/// Whether the account store holds `username` with the password `password`, and
/// the error of the login if not.
pub open spec fn check_credentials<D: CRUD<String, Account, CRUDError>, S>(
    v: AccountsView<D, S>,
    username: Seq<char>,
    password: Seq<char>,
) -> Result<(), AccountError> {
    if !v.database.contents().contains_key(username) {
        Err(AccountError::CrudError(D::not_found_error()))
    } else if v.database.contents()[username].password@ != password {
        Err(AccountError::InvalidCredentials)
    } else {
        Ok(())
    }
}

/// The state and result after opening a session under `token` for `username`
/// whose outbox is `sender`. The session is stored first: a token already in use
/// is reported after its session was replaced. Then the outbox is stored: a user
/// who already had one is reported after it was replaced.
pub open spec fn open_session_outcome<D, S>(
    v: AccountsView<D, S>,
    username: String,
    sender: S,
    token: String,
) -> (AccountsView<D, S>, Result<String, AccountError>) {
    let session = Session { username, token };
    let sessions = v.sessions.insert(token@, session);
    if v.sessions.contains_key(token@) {
        (
            AccountsView { sessions, ..v },
            Err(AccountError::CrudError(CRUDError::AlreadyExists)),
        )
    } else {
        let senders = v.senders.insert(username@, sender);
        let after = AccountsView { sessions, senders, ..v };
        if v.senders.contains_key(username@) {
            (after, Err(AccountError::CrudError(CRUDError::AlreadyExists)))
        } else {
            (after, Ok(token))
        }
    }
}

/// The state and result after closing the session with the given token.
pub open spec fn remove_session_outcome<D, S>(v: AccountsView<D, S>, token: Seq<char>) -> (
    AccountsView<D, S>,
    Result<(), AccountError>,
) {
    if !v.sessions.contains_key(token) {
        (v, Err(AccountError::CrudError(CRUDError::NotFound)))
    } else {
        let username = v.sessions[token].username@;
        let after = AccountsView {
            sessions: v.sessions.remove(token),
            senders: v.senders.remove(username),
            ..v
        };
        if v.senders.contains_key(username) {
            (after, Ok(()))
        } else {
            (after, Err(AccountError::CrudError(CRUDError::NotFound)))
        }
    }
}

/// The user name of the session with the given token.
pub open spec fn username_by_token<D, S>(v: AccountsView<D, S>, token: Seq<char>) -> Result<
    Seq<char>,
    AccountError,
> {
    if v.sessions.contains_key(token) {
        Ok(v.sessions[token].username@)
    } else {
        Err(AccountError::CrudError(CRUDError::NotFound))
    }
}

/// After a login succeeded, its token leads to the user who logged in, and the
/// user's outbox is the one the login registered.
pub proof fn law_login_then_lookup<D, S>(v: AccountsView<D, S>, username: String, sender: S, token: String)
    requires
        open_session_outcome(v, username, sender, token).1 is Ok,
    ensures
        ({
            let after = open_session_outcome(v, username, sender, token).0;
            &&& username_by_token(after, token@) == Ok::<Seq<char>, AccountError>(username@)
            &&& after.senders.contains_key(username@)
            &&& after.senders[username@] == sender
        }),
{
}

/// Closing the session that a successful login opened puts the sessions and the
/// outboxes back as they were before the login.
pub proof fn law_logout_undoes_login<D, S>(v: AccountsView<D, S>, username: String, sender: S, token: String)
    requires
        open_session_outcome(v, username, sender, token).1 is Ok,
    ensures
        remove_session_outcome(open_session_outcome(v, username, sender, token).0, token@) == (
            v,
            Ok::<(), AccountError>(()),
        ),
{
    let after = open_session_outcome(v, username, sender, token).0;
    assert(after.sessions.remove(token@) =~= v.sessions);
    assert(after.senders.remove(username@) =~= v.senders);
}

/// After a user registered, a login with the same name and password passes the
/// credentials check.
pub proof fn law_register_then_credentials_pass<D: CRUD<String, Account, CRUDError>, S>(
    before: AccountsView<D, S>,
    after: AccountsView<D, S>,
    username: String,
    password: String,
)
    requires
        after.database.contents() == before.database.contents().insert(
            username@,
            Account { username, password },
        ),
    ensures
        check_credentials(after, username@, password@) == Ok::<(), AccountError>(()),
{
}

/// A login fails for a user with no account, and for a wrong password.
pub proof fn law_bad_credentials_rejected<D: CRUD<String, Account, CRUDError>, S>(
    v: AccountsView<D, S>,
    username: Seq<char>,
    password: Seq<char>,
)
    requires
        !v.database.contents().contains_key(username) || v.database.contents()[username].password@
            != password,
    ensures
        check_credentials(v, username, password) is Err,
{
}

/// A registration of a name that the account store holds fails with the store's
/// `already_exists_error`, and one of a name it does not hold succeeds, whatever
/// sessions and outboxes there are.
pub proof fn law_register_outcome_follows_store<D: CRUD<String, Account, CRUDError>, S>(
    v: AccountsView<D, S>,
    username: String,
    password: String,
    sessions: Map<Seq<char>, Session>,
    senders: Map<Seq<char>, S>,
)
    ensures
        v.database.contents().contains_key(username@) ==> create_account_outcome(
            AccountsView { sessions, senders, ..v },
            username,
            password,
        ) == Err::<(), CRUDError>(D::already_exists_error()),
        !v.database.contents().contains_key(username@) ==> create_account_outcome(
            AccountsView { sessions, senders, ..v },
            username,
            password,
        ) == Ok::<(), CRUDError>(()),
{
}

/// A login with the name and password of a stored account passes the credentials
/// check, and one that passes names a stored account with that password.
pub proof fn law_credentials_pass_exactly_for_stored_password<
    D: CRUD<String, Account, CRUDError>,
    S,
>(v: AccountsView<D, S>, username: Seq<char>, password: Seq<char>)
    ensures
        check_credentials(v, username, password) is Ok <==> (v.database.contents().contains_key(
            username,
        ) && v.database.contents()[username].password@ == password),
        check_credentials(v, username, password) is Err ==> check_credentials(
            v,
            username,
            password,
        ) != Err::<(), AccountError>(AccountError::TokenUnavailable),
{
}

/// Opening a session under a token not in use, for a user without an outbox,
/// succeeds with that token; opening a session never touches the account store
/// and never reports `TokenUnavailable`.
pub proof fn law_open_session_succeeds_when_fresh<D, S>(
    v: AccountsView<D, S>,
    username: String,
    sender: S,
    token: String,
)
    ensures
        (!v.sessions.contains_key(token@) && !v.senders.contains_key(username@))
            <==> open_session_outcome(v, username, sender, token).1 is Ok,
        open_session_outcome(v, username, sender, token).1 is Ok ==> open_session_outcome(
            v,
            username,
            sender,
            token,
        ).1 == Ok::<String, AccountError>(token),
        open_session_outcome(v, username, sender, token).1 != Err::<String, AccountError>(
            AccountError::TokenUnavailable,
        ),
        open_session_outcome(v, username, sender, token).0.database == v.database,
        open_session_outcome(v, username, sender, token).0.sessions.contains_key(token@),
        open_session_outcome(v, username, sender, token).0.sessions[token@].username == username,
{
}

/// A token leads to a user name exactly when a session is stored under it, and
/// then to the name of that session's user.
pub proof fn law_lookup_follows_sessions<D, S>(v: AccountsView<D, S>, token: Seq<char>)
    ensures
        username_by_token(v, token) is Ok <==> v.sessions.contains_key(token),
        v.sessions.contains_key(token) ==> username_by_token(v, token) == Ok::<
            Seq<char>,
            AccountError,
        >(v.sessions[token].username@),
{
}

/// Closing a session removes its token and its user's outbox, and touches
/// nothing else; an unknown token changes nothing.
pub proof fn law_remove_session_removes_token<D, S>(v: AccountsView<D, S>, token: Seq<char>)
    ensures
        !remove_session_outcome(v, token).0.sessions.contains_key(token),
        remove_session_outcome(v, token).0.database == v.database,
        !v.sessions.contains_key(token) ==> remove_session_outcome(v, token).0 == v,
        v.sessions.contains_key(token) ==> !remove_session_outcome(v, token).0.senders.contains_key(
            v.sessions[token].username@,
        ),
{
}

impl<D: CRUD<String, Account, CRUDError>, S> AccountManager<D, S> {
    /// A manager over the given account store, with no sessions.
    pub fn new(database: D) -> (m: Self)
        ensures
            m@.database == database,
            m@.sessions == Map::<Seq<char>, Session>::empty(),
            m@.senders == Map::<Seq<char>, S>::empty(),
    {
        Self {
            database,
            senders_by_username: KeyedMap::new(),
            sessions_by_token: KeyedMap::new(),
        }
    }

    /// The account store.
    pub fn database(&self) -> (d: &D)
        ensures
            *d == self@.database,
    {
        &self.database
    }

    /// Registers `username` with `password`.
    pub fn create_account(&mut self, username: String, password: String) -> (r: Result<
        (),
        CRUDError,
    >)
        ensures
            r == create_account_outcome(old(self)@, username, password),
            r is Err <==> old(self)@.database.contents().contains_key(username@),
            r is Err ==> r == Err::<(), CRUDError>(D::already_exists_error()),
            final(self)@.database.contents() == old(self)@.database.contents().insert(
                username@,
                Account { username, password },
            ),
            final(self)@.sessions == old(self)@.sessions,
            final(self)@.senders == old(self)@.senders,
    {
        let key = username.clone();
        match self.database.create(key, Account { username, password }) {
            Err(err) => Err(err),
            Ok(_) => Ok(()),
        }
    }

    /// Removes the account of `username`.
    pub fn delete_account(&mut self, username: String) -> (r: Result<(), CRUDError>)
        ensures
            if old(self)@.database.contents().contains_key(username@) {
                &&& final(self)@.database.contents() == old(self)@.database.contents().remove(
                    username@,
                )
                &&& r == Ok::<(), CRUDError>(())
            } else {
                &&& final(self)@.database.contents() == old(self)@.database.contents()
                &&& r == Err::<(), CRUDError>(D::not_found_error())
            },
            final(self)@.sessions == old(self)@.sessions,
            final(self)@.senders == old(self)@.senders,
    {
        match self.database.delete(&username) {
            Err(err) => Err(err),
            Ok(_) => Ok(()),
        }
    }

    /// Opens a session for `username` under the given token, with `sender` as the
    /// user's outbox. This is what a login does once the credentials are checked.
    pub fn open_session(&mut self, username: String, sender: S, token: String) -> (r: Result<
        String,
        AccountError,
    >)
        ensures
            (final(self)@, r) == open_session_outcome(old(self)@, username, sender, token),
    {
        let session = Session { username: username.clone(), token: token.clone() };
        match self.sessions_by_token.insert(token.clone(), session) {
            Some(_) => Err(AccountError::from(CRUDError::AlreadyExists)),
            None => match self.senders_by_username.insert(username, sender) {
                Some(_) => Err(AccountError::from(CRUDError::AlreadyExists)),
                None => Ok(token),
            },
        }
    }

    /// Logs `username` in with `password`: on the right credentials 16 random
    /// bytes are drawn, and a session is opened under the token they make, as
    /// `open_session` does; when no random bytes can be had, the login fails with
    /// `TokenUnavailable` and nothing changes.
    pub fn create_session(&mut self, username: String, password: String, sender: S) -> (r: Result<
        String,
        AccountError,
    >)
        ensures
            match check_credentials(old(self)@, username@, password@) {
                Err(e) => r == Err::<String, AccountError>(e) && final(self)@ == old(self)@,
                Ok(_) => {
                    ||| r == Err::<String, AccountError>(AccountError::TokenUnavailable)
                        && final(self)@ == old(self)@
                    ||| exists|token: String|
                        is_hyphenated_uuid(token@) && (final(self)@, r) == open_session_outcome(
                            old(self)@,
                            username,
                            sender,
                            token,
                        )
                },
            },
    {
        let accepted = match self.database.read(&username) {
            Err(err) => {
                return Err(AccountError::from(err));
            },
            Ok(account) => account.password.eq(&password),
        };
        if accepted {
            let draw = random_bytes();
            let ghost before = self@;
            let ghost name = username;
            let ghost outbox = sender;
            let r = self.login_with_draw(username, password, sender, draw);
            proof {
                if let Some(bytes) = draw {
                    let t = choose|t: String|
                        t@ == hyphenated_text(v4_uuid_bytes(bytes@)) && (self@, r)
                            == open_session_outcome(before, name, outbox, t);
                    lemma_hyphenated_text_is_uuid(v4_uuid_bytes(bytes@));
                    assert(is_hyphenated_uuid(t@));
                }
            }
            r
        } else {
            Err(AccountError::InvalidCredentials)
        }
    }

    /// Logs `username` in with `password`, given the outcome of drawing 16 random
    /// bytes: `None` when the random source failed. With the right credentials
    /// and bytes drawn, a session is opened under the token the bytes make, as
    /// `open_session` does; `TokenUnavailable` is reported exactly when the
    /// credentials are right and no bytes were drawn.
    pub fn login_with_draw(
        &mut self,
        username: String,
        password: String,
        sender: S,
        draw: Option<[u8; 16]>,
    ) -> (r: Result<String, AccountError>)
        ensures
            r == Err::<String, AccountError>(AccountError::TokenUnavailable) <==> (check_credentials(
                old(self)@,
                username@,
                password@,
            ) is Ok && draw is None),
            match check_credentials(old(self)@, username@, password@) {
                Err(e) => r == Err::<String, AccountError>(e) && final(self)@ == old(self)@,
                Ok(_) => match draw {
                    None => final(self)@ == old(self)@,
                    Some(bytes) => exists|token: String|
                        token@ == hyphenated_text(v4_uuid_bytes(bytes@)) && (final(self)@, r)
                            == open_session_outcome(old(self)@, username, sender, token),
                },
            },
    {
        let accepted = match self.database.read(&username) {
            Err(err) => {
                return Err(AccountError::from(err));
            },
            Ok(account) => account.password.eq(&password),
        };
        if !accepted {
            return Err(AccountError::InvalidCredentials);
        }
        match draw {
            None => Err(AccountError::TokenUnavailable),
            Some(bytes) => {
                let token = session_token_from_bytes(bytes);
                let ghost t = token;
                let r = self.open_session(username, sender, token);
                proof {
                    assert(t@ == hyphenated_text(v4_uuid_bytes(bytes@)));
                }
                r
            },
        }
    }

    /// Closes the session with the given token and drops its user's outbox.
    pub fn remove_session(&mut self, token: &String) -> (r: Result<(), AccountError>)
        ensures
            (final(self)@, r) == remove_session_outcome(old(self)@, token@),
    {
        match self.sessions_by_token.remove(token) {
            Some(session) => match self.senders_by_username.remove(&session.username) {
                Some(_) => Ok(()),
                None => Err(AccountError::from(CRUDError::NotFound)),
            },
            None => {
                proof {
                    assert(self.sessions_by_token@ =~= old(self).sessions_by_token@);
                }
                Err(AccountError::from(CRUDError::NotFound))
            },
        }
    }

    /// The user name of the session with the given token.
    pub fn get_username_by_token(&self, token: &String) -> (r: Result<String, AccountError>)
        ensures
            match (r, username_by_token(self@, token@)) {
                (Ok(name), Ok(expected)) => name@ == expected,
                (Err(e), Err(expected)) => e == expected,
                _ => false,
            },
    {
        match self.sessions_by_token.get(token) {
            None => Err(AccountError::from(CRUDError::NotFound)),
            Some(session) => Ok(session.username.clone()),
        }
    }
}

impl<D: CRUD<String, Account, CRUDError>, S: Clone> AccountManager<D, S> {
    /// The outbox of a logged-in user.
    pub fn get_sender_by_username(&self, username: &String) -> (r: Result<S, AccountError>)
        ensures
            match r {
                Ok(s) => self@.senders.contains_key(username@) && cloned(
                    self@.senders[username@],
                    s,
                ),
                Err(e) => !self@.senders.contains_key(username@) && e == AccountError::CrudError(
                    CRUDError::NotFound,
                ),
            },
    {
        match self.senders_by_username.get(username) {
            None => Err(AccountError::from(CRUDError::NotFound)),
            Some(sender) => Ok(sender.clone()),
        }
    }
}

} // verus!
