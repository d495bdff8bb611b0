//! The session manager: login by name and password, login by session token,
//! and the rotation of a refresh token.
//!
//! A session is a pair of tokens. The session token is stored in clear and
//! looked up as it is; of the refresh token only the hash is stored. Every
//! login and every rotation stores a new session; none is changed or
//! removed here.
use crate::clock::{now, readable, Timestamp, REFRESH_LIFETIME, SESSION_LIFETIME};
use crate::errors::Failure;
use crate::ident::{hyphenated, new_v4, to_text};
use crate::password::{bcrypt_verdict, verify};
use crate::store::{
    Action, ActionView, Body, BodyView, Event, EventView, Query, QueryView, SessionRow,
    SessionRowView,
};
use crate::text::{blank, is_blank};
use crate::token::{generate_random_token, hash_token, is_token, token_hash};
use crate::types::{
    LoginRequest, LoginRequestView, LoginResponse, LoginResponseView, LoginSession,
    LoginSessionView, RefreshToken, RefreshTokenView, SessionTokenResponse,
    SessionTokenResponseView,
};
use vstd::prelude::*;

verus! {

/// How far a login by session token has come.
#[derive(Clone, Copy, Debug, PartialEq, Eq, Structural)]
pub enum SessionLoginState {
    /// Nothing was asked yet.
    Start,
    /// Waiting for a connection.
    Connecting,
    /// Waiting for the session that has the token.
    FindingSession,
    /// The session is there; waiting for the name of its user.
    FindingUser(u128),
    /// Over.
    Finished,
}

/// How far a login by name and password has come.
#[derive(Clone, Debug, PartialEq, Eq)]
pub enum LoginState {
    /// Nothing was asked yet.
    Start,
    /// Waiting for a connection.
    Connecting,
    /// Waiting for the user's row.
    Finding,
    /// Waiting for the new session to be stored; this is the reply once it
    /// is.
    Storing(SessionTokenResponse),
    /// Over.
    Finished,
}

/// `LoginState`, as plain values.
pub enum LoginStateView {
    Start,
    Connecting,
    Finding,
    Storing(SessionTokenResponseView),
    Finished,
}

impl View for LoginState {
    type V = LoginStateView;

    open spec fn view(&self) -> LoginStateView {
        match self {
            LoginState::Start => LoginStateView::Start,
            LoginState::Connecting => LoginStateView::Connecting,
            LoginState::Finding => LoginStateView::Finding,
            LoginState::Storing(x0) => LoginStateView::Storing(x0@),
            LoginState::Finished => LoginStateView::Finished,
        }
    }
}

impl DeepView for LoginState {
    type V = LoginStateView;

    open spec fn deep_view(&self) -> LoginStateView {
        self.view()
    }
}

/// How far the rotation of a refresh token has come.
#[derive(Clone, Debug, PartialEq, Eq)]
pub enum RefreshState {
    /// Nothing was asked yet.
    Start,
    /// Waiting for a connection.
    Connecting,
    /// Waiting for the session that the refresh token belongs to.
    FindingSession,
    /// The refresh token is good; waiting for the name of its user.
    FindingUser(u128),
    /// Waiting for the new session to be stored; this is the reply once it
    /// is.
    Storing(SessionTokenResponse),
    /// Over.
    Finished,
}

/// `RefreshState`, as plain values.
pub enum RefreshStateView {
    Start,
    Connecting,
    FindingSession,
    FindingUser(u128),
    Storing(SessionTokenResponseView),
    Finished,
}

impl View for RefreshState {
    type V = RefreshStateView;

    open spec fn view(&self) -> RefreshStateView {
        match self {
            RefreshState::Start => RefreshStateView::Start,
            RefreshState::Connecting => RefreshStateView::Connecting,
            RefreshState::FindingSession => RefreshStateView::FindingSession,
            RefreshState::FindingUser(x0) => RefreshStateView::FindingUser(*x0),
            RefreshState::Storing(x0) => RefreshStateView::Storing(x0@),
            RefreshState::Finished => RefreshStateView::Finished,
        }
    }
}

impl DeepView for RefreshState {
    type V = RefreshStateView;

    open spec fn deep_view(&self) -> RefreshStateView {
        self.view()
    }
}

/// The session that is issued to a user at the time `now`, with the given
/// new values: the row to store, and the reply that hands out the tokens.
///
/// The session token is meant to last an hour, the refresh token lasts
/// thirty days. The row holds the refresh token's hash; the reply holds both
/// tokens in clear.
pub open spec fn issued(
    user_id: u128,
    username: Seq<char>,
    token_id: u128,
    session_token: Seq<char>,
    refresh_token: Seq<char>,
    now: Timestamp,
) -> (SessionRowView, SessionTokenResponseView) {
    (
        SessionRowView {
            token_id,
            user_id,
            session_token,
            refresh_token_hash: token_hash(refresh_token),
            session_expires_at: now.later_by(SESSION_LIFETIME as int),
            refresh_expires_at: now.later_by(REFRESH_LIFETIME as int),
        },
        SessionTokenResponseView {
            user_id: hyphenated(user_id),
            username,
            session_token,
            refresh_token,
            message: "login successfully."@,
        },
    )
}

/// Whether `row` and `response` may be the session issued to a user: with
/// some new id, two new tokens, and the time of some reading of the clock.
pub open spec fn may_issue(
    user_id: u128,
    username: Seq<char>,
    row: SessionRowView,
    response: SessionTokenResponseView,
) -> bool {
    exists|token_id: u128, session_token: Seq<char>, refresh_token: Seq<char>, now: Timestamp|
        is_token(session_token) && is_token(refresh_token) && readable(now) && (row, response)
            == #[trigger] issued(user_id, username, token_id, session_token, refresh_token, now)
}

/// The session issued to a user at the time `now`, with the given new
/// values.
pub fn session_for(
    user_id: u128,
    username: &str,
    token_id: u128,
    session_token: String,
    refresh_token: String,
    now: Timestamp,
) -> (r: (SessionRow, SessionTokenResponse))
    requires
        now.secs + REFRESH_LIFETIME <= i64::MAX,
    ensures
        (r.0@, r.1@) == issued(user_id, username@, token_id, session_token@, refresh_token@, now),
{
    let refresh_token_hash = hash_token(refresh_token.as_str());
    let session_expires_at = now.plus_seconds(SESSION_LIFETIME);
    let refresh_expires_at = now.plus_seconds(REFRESH_LIFETIME);
    (
        SessionRow {
            token_id,
            user_id,
            session_token: session_token.clone(),
            refresh_token_hash,
            session_expires_at,
            refresh_expires_at,
        },
        SessionTokenResponse {
            user_id: to_text(user_id),
            username: username.to_owned(),
            session_token,
            refresh_token,
            message: "login successfully.".to_owned(),
        },
    )
}

/// Issues a session to a user: draws an id and two tokens, reads the clock,
/// and gives the row to store and the reply that hands out the tokens.
pub fn generate_session_tokens(user_id: u128, username: &str) -> (r: (
    SessionRow,
    SessionTokenResponse,
))
    ensures
        may_issue(user_id, username@, r.0@, r.1@),
{
    let token_id: u128 = new_v4();
    let session_token = generate_random_token();
    let refresh_token = generate_random_token();
    let now = now();
    session_for(user_id, username, token_id, session_token, refresh_token, now)
}

/// What stands against a login once the password was checked against the
/// user's hash, where `verdict` is what the check said: nothing where the
/// password is the user's; a password that is not the user's is an invalid
/// credential; a hash that cannot be read is a failure of the service.
pub open spec fn verdict_failure(verdict: Option<bool>) -> Option<Failure> {
    match verdict {
        Some(true) => None,
        Some(false) => Some(Failure::InvalidCredentials),
        None => Some(Failure::PasswordVerificationFailed),
    }
}

/// What stands against a login once the password was checked against the
/// user's hash, where `verdict` is what the check said.
pub fn check_verdict(verdict: Option<bool>) -> (r: Option<Failure>)
    ensures
        r == verdict_failure(verdict),
{
    match verdict {
        Some(true) => None,
        Some(false) => Some(Failure::InvalidCredentials),
        None => Some(Failure::PasswordVerificationFailed),
    }
}

/// Whether a login may go on to `next` with `action` by issuing a session
/// to the user: the session is to be stored, and its reply is kept for when
/// it is.
pub open spec fn login_issues(
    user_id: u128,
    username: Seq<char>,
    next: LoginStateView,
    action: ActionView,
) -> bool {
    exists|row: SessionRowView, response: SessionTokenResponseView|
        #![trigger may_issue(user_id, username, row, response)]
        may_issue(user_id, username, row, response) && (next, action) == (
            LoginStateView::Storing(response),
            ActionView::Ask(QueryView::InsertSession(row)),
        )
}

/// Whether a login by name and password may go from `state`, on `event`, to
/// `next` with `action`.
///
/// All is fixed but the session that is issued once the password has been
/// found to be the user's.
pub open spec fn login_moves(
    request: LoginRequestView,
    state: LoginStateView,
    event: EventView,
    next: LoginStateView,
    action: ActionView,
) -> bool {
    match (state, event) {
        (LoginStateView::Start, EventView::Start) => (next, action) == (
            if blank(request.username) || blank(request.password) {
                (LoginStateView::Finished, ActionView::Reject(Failure::BlankCredentials))
            } else {
                (LoginStateView::Connecting, ActionView::Ask(QueryView::Connect))
            }
        ),
        (LoginStateView::Connecting, EventView::Connected(true)) => (next, action) == (
            LoginStateView::Finding,
            ActionView::Ask(QueryView::FindUser { username: request.username }),
        ),
        (LoginStateView::Connecting, EventView::Connected(false)) => (next, action) == (
            LoginStateView::Finished,
            ActionView::Reject(Failure::ConnectionFailed),
        ),
        (LoginStateView::Finding, EventView::User { user_id, password_hash, username }) => {
            match verdict_failure(bcrypt_verdict(request.password, password_hash)) {
                None => login_issues(user_id, username, next, action),
                Some(failure) => (next, action) == (
                    LoginStateView::Finished,
                    ActionView::Reject(failure),
                ),
            }
        },
        (LoginStateView::Finding, EventView::Missing) => (next, action) == (
            LoginStateView::Finished,
            ActionView::Reject(Failure::InvalidCredentials),
        ),
        (LoginStateView::Finding, EventView::Failed) => (next, action) == (
            LoginStateView::Finished,
            ActionView::Reject(Failure::InvalidCredentials),
        ),
        (LoginStateView::Storing(response), EventView::Done) => (next, action) == (
            LoginStateView::Finished,
            ActionView::Reply(BodyView::Session(response)),
        ),
        (LoginStateView::Storing(_), EventView::Failed) => (next, action) == (
            LoginStateView::Finished,
            ActionView::Reject(Failure::SessionCreationFailed),
        ),
        _ => (next, action) == (
            LoginStateView::Finished,
            ActionView::Reject(Failure::UnexpectedEvent),
        ),
    }
}

/// Logs a user in by name and password, one step at a time: takes what came
/// back and says what to do next.
///
/// A blank name or password is turned down before anything is asked. A name
/// that no user has and a password that is not the user's are reported alike.
/// The conversation ends with a new pair of tokens, once the new session is
/// stored, or with a failure.
pub fn raw(request: &LoginRequest, state: LoginState, event: Event) -> (r: (LoginState, Action))
    ensures
        login_moves(request@, state@, event@, r.0@, r.1@),
{
    match (state, event) {
        (LoginState::Start, Event::Start) => {
            if is_blank(request.username.as_str()) || is_blank(request.password.as_str()) {
                (LoginState::Finished, Action::Reject(Failure::BlankCredentials))
            } else {
                (LoginState::Connecting, Action::Ask(Query::Connect))
            }
        },
        (LoginState::Connecting, Event::Connected(true)) => (
            LoginState::Finding,
            Action::Ask(Query::FindUser { username: request.username.clone() }),
        ),
        (LoginState::Connecting, Event::Connected(false)) => (
            LoginState::Finished,
            Action::Reject(Failure::ConnectionFailed),
        ),
        (LoginState::Finding, Event::User { user_id, password_hash, username }) => {
            let verdict = match verify(request.password.as_str(), password_hash.as_str()) {
                Ok(accepted) => Some(accepted),
                Err(_) => None,
            };
            match check_verdict(verdict) {
                None => {
                    let (row, response) = generate_session_tokens(user_id, username.as_str());
                    (LoginState::Storing(response), Action::Ask(Query::InsertSession(row)))
                },
                Some(failure) => (LoginState::Finished, Action::Reject(failure)),
            }
        },
        (LoginState::Finding, Event::Missing) => (
            LoginState::Finished,
            Action::Reject(Failure::InvalidCredentials),
        ),
        (LoginState::Finding, Event::Failed) => (
            LoginState::Finished,
            Action::Reject(Failure::InvalidCredentials),
        ),
        (LoginState::Storing(response), Event::Done) => (
            LoginState::Finished,
            Action::Reply(Body::Session(response)),
        ),
        (LoginState::Storing(_), Event::Failed) => (
            LoginState::Finished,
            Action::Reject(Failure::SessionCreationFailed),
        ),
        _ => (LoginState::Finished, Action::Reject(Failure::UnexpectedEvent)),
    }
}

/// One step of a login by session token.
///
/// The session is looked up by its token alone, among those that are not
/// revoked: when the session token was meant to expire plays no part.
pub open spec fn session_login_step(
    request: LoginSessionView,
    state: SessionLoginState,
    event: EventView,
) -> (SessionLoginState, ActionView) {
    match (state, event) {
        (SessionLoginState::Start, EventView::Start) => if blank(request.session_token) {
            (SessionLoginState::Finished, ActionView::Reject(Failure::BlankSessionToken))
        } else {
            (SessionLoginState::Connecting, ActionView::Ask(QueryView::Connect))
        },
        (SessionLoginState::Connecting, EventView::Connected(true)) => (
            SessionLoginState::FindingSession,
            ActionView::Ask(QueryView::FindSession { session_token: request.session_token }),
        ),
        (SessionLoginState::Connecting, EventView::Connected(false)) => (
            SessionLoginState::Finished,
            ActionView::Reject(Failure::ConnectionFailed),
        ),
        (SessionLoginState::FindingSession, EventView::UserId(user_id)) => (
            SessionLoginState::FindingUser(user_id),
            ActionView::Ask(QueryView::FindUsername { user_id }),
        ),
        (SessionLoginState::FindingSession, EventView::Missing) => (
            SessionLoginState::Finished,
            ActionView::Reject(Failure::InvalidSessionToken),
        ),
        (SessionLoginState::FindingSession, EventView::Failed) => (
            SessionLoginState::Finished,
            ActionView::Reject(Failure::InvalidSessionToken),
        ),
        (SessionLoginState::FindingUser(user_id), EventView::Username(username)) => (
            SessionLoginState::Finished,
            ActionView::Reply(
                BodyView::LoggedIn(
                    LoginResponseView {
                        user_id: hyphenated(user_id),
                        username,
                        message: "login successfully."@,
                    },
                ),
            ),
        ),
        (SessionLoginState::FindingUser(_), EventView::Missing) => (
            SessionLoginState::Finished,
            ActionView::Reject(Failure::QueryFailed),
        ),
        (SessionLoginState::FindingUser(_), EventView::Failed) => (
            SessionLoginState::Finished,
            ActionView::Reject(Failure::QueryFailed),
        ),
        _ => (SessionLoginState::Finished, ActionView::Reject(Failure::UnexpectedEvent)),
    }
}

/// Logs a user in by session token, one step at a time: takes what came back
/// and says what to do next. The conversation ends with the user's id and
/// name, or with a failure.
pub fn session_token_login(request: &LoginSession, state: SessionLoginState, event: Event) -> (r: (
    SessionLoginState,
    Action,
))
    ensures
        (r.0, r.1@) == session_login_step(request@, state, event@),
{
    match (state, event) {
        (SessionLoginState::Start, Event::Start) => {
            if is_blank(request.session_token.as_str()) {
                (SessionLoginState::Finished, Action::Reject(Failure::BlankSessionToken))
            } else {
                (SessionLoginState::Connecting, Action::Ask(Query::Connect))
            }
        },
        (SessionLoginState::Connecting, Event::Connected(true)) => (
            SessionLoginState::FindingSession,
            Action::Ask(Query::FindSession { session_token: request.session_token.clone() }),
        ),
        (SessionLoginState::Connecting, Event::Connected(false)) => (
            SessionLoginState::Finished,
            Action::Reject(Failure::ConnectionFailed),
        ),
        (SessionLoginState::FindingSession, Event::UserId(user_id)) => (
            SessionLoginState::FindingUser(user_id),
            Action::Ask(Query::FindUsername { user_id }),
        ),
        (SessionLoginState::FindingSession, Event::Missing) => (
            SessionLoginState::Finished,
            Action::Reject(Failure::InvalidSessionToken),
        ),
        (SessionLoginState::FindingSession, Event::Failed) => (
            SessionLoginState::Finished,
            Action::Reject(Failure::InvalidSessionToken),
        ),
        (SessionLoginState::FindingUser(user_id), Event::Username(username)) => (
            SessionLoginState::Finished,
            Action::Reply(
                Body::LoggedIn(
                    LoginResponse {
                        user_id: to_text(user_id),
                        username,
                        message: "login successfully.".to_owned(),
                    },
                ),
            ),
        ),
        (SessionLoginState::FindingUser(_), Event::Missing) => (
            SessionLoginState::Finished,
            Action::Reject(Failure::QueryFailed),
        ),
        (SessionLoginState::FindingUser(_), Event::Failed) => (
            SessionLoginState::Finished,
            Action::Reject(Failure::QueryFailed),
        ),
        _ => (SessionLoginState::Finished, Action::Reject(Failure::UnexpectedEvent)),
    }
}

/// How a rotation goes on once the session of the refresh token is there,
/// at the time `now`: a refresh token whose expiry lies before `now` is
/// turned down; at its expiry and before it, the token is still good.
pub open spec fn expiry_decision(user_id: u128, refresh_expires_at: Timestamp, now: Timestamp) -> (
    RefreshStateView,
    ActionView,
) {
    if refresh_expires_at.before(now) {
        (RefreshStateView::Finished, ActionView::Reject(Failure::RefreshTokenExpired))
    } else {
        (RefreshStateView::FindingUser(user_id), ActionView::Ask(QueryView::FindUsername { user_id }))
    }
}

/// How a rotation goes on once the session of the refresh token is there,
/// at the time `now`.
pub fn check_expiry(user_id: u128, refresh_expires_at: Timestamp, now: Timestamp) -> (r: (
    RefreshState,
    Action,
))
    ensures
        (r.0@, r.1@) == expiry_decision(user_id, refresh_expires_at, now),
{
    if refresh_expires_at.is_before(&now) {
        (RefreshState::Finished, Action::Reject(Failure::RefreshTokenExpired))
    } else {
        (RefreshState::FindingUser(user_id), Action::Ask(Query::FindUsername { user_id }))
    }
}

/// Whether a rotation may go on to `next` with `action` by issuing a session
/// to the user: the session is to be stored, and its reply is kept for when
/// it is.
pub open spec fn refresh_issues(
    user_id: u128,
    username: Seq<char>,
    next: RefreshStateView,
    action: ActionView,
) -> bool {
    exists|row: SessionRowView, response: SessionTokenResponseView|
        #![trigger may_issue(user_id, username, row, response)]
        may_issue(user_id, username, row, response) && (next, action) == (
            RefreshStateView::Storing(response),
            ActionView::Ask(QueryView::InsertSession(row)),
        )
}

/// Whether a rotation may go from `state`, on `event`, to `next` with
/// `action`, where `now` is what the clock shows if the step reads it to
/// check the expiry.
///
/// All is fixed but the session that is issued.
pub open spec fn refresh_moves(
    request: RefreshTokenView,
    now: Timestamp,
    state: RefreshStateView,
    event: EventView,
    next: RefreshStateView,
    action: ActionView,
) -> bool {
    match (state, event) {
        (RefreshStateView::Start, EventView::Start) => (next, action) == (
            if blank(request.refresh_token) {
                (RefreshStateView::Finished, ActionView::Reject(Failure::BlankRefreshToken))
            } else {
                (RefreshStateView::Connecting, ActionView::Ask(QueryView::Connect))
            }
        ),
        (RefreshStateView::Connecting, EventView::Connected(true)) => (next, action) == (
            RefreshStateView::FindingSession,
            ActionView::Ask(
                QueryView::FindRefresh { refresh_token_hash: token_hash(request.refresh_token) },
            ),
        ),
        (RefreshStateView::Connecting, EventView::Connected(false)) => (next, action) == (
            RefreshStateView::Finished,
            ActionView::Reject(Failure::ConnectionFailed),
        ),
        (RefreshStateView::FindingSession, EventView::Session { user_id, refresh_expires_at }) => {
            (next, action) == expiry_decision(user_id, refresh_expires_at, now)
        },
        (RefreshStateView::FindingSession, EventView::Missing) => (next, action) == (
            RefreshStateView::Finished,
            ActionView::Reject(Failure::InvalidRefreshToken),
        ),
        (RefreshStateView::FindingSession, EventView::Failed) => (next, action) == (
            RefreshStateView::Finished,
            ActionView::Reject(Failure::InvalidRefreshToken),
        ),
        (RefreshStateView::FindingUser(user_id), EventView::Username(username)) => {
            refresh_issues(user_id, username, next, action)
        },
        (RefreshStateView::FindingUser(_), EventView::Missing) => (next, action) == (
            RefreshStateView::Finished,
            ActionView::Reject(Failure::QueryFailed),
        ),
        (RefreshStateView::FindingUser(_), EventView::Failed) => (next, action) == (
            RefreshStateView::Finished,
            ActionView::Reject(Failure::QueryFailed),
        ),
        (RefreshStateView::Storing(response), EventView::Done) => (next, action) == (
            RefreshStateView::Finished,
            ActionView::Reply(BodyView::Session(response)),
        ),
        (RefreshStateView::Storing(_), EventView::Failed) => (next, action) == (
            RefreshStateView::Finished,
            ActionView::Reject(Failure::SessionCreationFailed),
        ),
        _ => (next, action) == (
            RefreshStateView::Finished,
            ActionView::Reject(Failure::UnexpectedEvent),
        ),
    }
}

/// Rotates a refresh token, one step at a time: takes what came back and
/// says what to do next.
///
/// The session is looked up by the hash of the refresh token, among those
/// that are not revoked. A refresh token whose expiry lies before the time
/// that the clock shows is turned down. Otherwise a new session is issued to
/// the same user; the session that was found stays as it is. The
/// conversation ends with the new pair of tokens, once the new session is
/// stored, or with a failure.
pub fn refresh_token(request: &RefreshToken, state: RefreshState, event: Event) -> (r: (
    RefreshState,
    Action,
))
    ensures
        exists|now: Timestamp|
            readable(now) && #[trigger] refresh_moves(request@, now, state@, event@, r.0@, r.1@),
{
    refresh_step(request, state, event).0
}

/// A step of a rotation, and what the clock showed if the step read it.
fn refresh_step(request: &RefreshToken, state: RefreshState, event: Event) -> (r: (
    (RefreshState, Action),
    Ghost<Timestamp>,
))
    ensures
        readable(r.1@),
        refresh_moves(request@, r.1@, state@, event@, r.0.0@, r.0.1@),
{
    let ghost mut shown = Timestamp { secs: 0, nanos: 0 };
    let step = match (state, event) {
        (RefreshState::Start, Event::Start) => {
            if is_blank(request.refresh_token.as_str()) {
                (RefreshState::Finished, Action::Reject(Failure::BlankRefreshToken))
            } else {
                (RefreshState::Connecting, Action::Ask(Query::Connect))
            }
        },
        (RefreshState::Connecting, Event::Connected(true)) => {
            let refresh_token_hash = hash_token(request.refresh_token.as_str());
            (RefreshState::FindingSession, Action::Ask(Query::FindRefresh { refresh_token_hash }))
        },
        (RefreshState::Connecting, Event::Connected(false)) => (
            RefreshState::Finished,
            Action::Reject(Failure::ConnectionFailed),
        ),
        (RefreshState::FindingSession, Event::Session { user_id, refresh_expires_at }) => {
            let now = now();
            proof {
                shown = now;
            }
            check_expiry(user_id, refresh_expires_at, now)
        },
        (RefreshState::FindingSession, Event::Missing) => (
            RefreshState::Finished,
            Action::Reject(Failure::InvalidRefreshToken),
        ),
        (RefreshState::FindingSession, Event::Failed) => (
            RefreshState::Finished,
            Action::Reject(Failure::InvalidRefreshToken),
        ),
        (RefreshState::FindingUser(user_id), Event::Username(username)) => {
            let (row, response) = generate_session_tokens(user_id, username.as_str());
            (RefreshState::Storing(response), Action::Ask(Query::InsertSession(row)))
        },
        (RefreshState::FindingUser(_), Event::Missing) => (
            RefreshState::Finished,
            Action::Reject(Failure::QueryFailed),
        ),
        (RefreshState::FindingUser(_), Event::Failed) => (
            RefreshState::Finished,
            Action::Reject(Failure::QueryFailed),
        ),
        (RefreshState::Storing(response), Event::Done) => (
            RefreshState::Finished,
            Action::Reply(Body::Session(response)),
        ),
        (RefreshState::Storing(_), Event::Failed) => (
            RefreshState::Finished,
            Action::Reject(Failure::SessionCreationFailed),
        ),
        _ => (RefreshState::Finished, Action::Reject(Failure::UnexpectedEvent)),
    };
    (step, Ghost(shown))
}

} // verus!
