//! Registration.
use crate::errors::Failure;
use crate::ident::{hyphenated, new_v4, to_text};
use crate::password::{bcrypt_verdict, hash};
use crate::store::{Action, ActionView, Body, BodyView, Event, EventView, Query, QueryView};
use crate::text::{blank, is_blank};
use crate::types::{SignUpRequest, SignUpRequestView, SignUpResponse, SignUpResponseView};
use vstd::prelude::*;
use vstd::utf8::encode_utf8;

verus! {

/// The least length of a username, in bytes.
pub const USERNAME_MIN: usize = 3;

/// The greatest length of a username, in bytes.
pub const USERNAME_MAX: usize = 255;

/// The least length of a password, in bytes.
pub const PASSWORD_MIN: usize = 8;

/// How far a registration has come.
#[derive(Clone, Copy, Debug, PartialEq, Eq, Structural)]
pub enum SignupState {
    /// Nothing was asked yet.
    Start,
    /// Waiting for a connection.
    Connecting,
    /// Waiting for the user to be inserted.
    Inserting,
    /// The user was not inserted; waiting to hear whether the name is taken.
    Checking,
    /// Over.
    Finished,
}

/// What is wrong with a request to register, if anything: a blank name or
/// password, a name of fewer than 3 or more than 255 bytes, a password of
/// fewer than 8 bytes, looked for in this order.
pub open spec fn signup_failure(request: SignUpRequestView) -> Option<Failure> {
    if blank(request.username) || blank(request.password) {
        Some(Failure::EmptyCredentials)
    } else if encode_utf8(request.username).len() < USERNAME_MIN || encode_utf8(
        request.username,
    ).len() > USERNAME_MAX {
        Some(Failure::UsernameLength)
    } else if encode_utf8(request.password).len() < PASSWORD_MIN {
        Some(Failure::PasswordTooShort)
    } else {
        None
    }
}

/// The query that inserts the user of `request` under `user_id`, with
/// `password_hash` for the password.
pub open spec fn insertion(request: SignUpRequestView, user_id: u128, password_hash: Seq<char>) -> ActionView {
    ActionView::Ask(QueryView::InsertUser { user_id, username: request.username, password_hash })
}

/// Whether a registration that has its connection may go on to `next` with
/// `action`: the password could not be hashed, or the user is to be inserted
/// under some new id, with a hash that the request's password verifies
/// against.
pub open spec fn signup_inserts(request: SignUpRequestView, next: SignupState, action: ActionView) -> bool {
    ||| (next, action) == (SignupState::Finished, ActionView::Reject(Failure::PasswordHashingFailed))
    ||| exists|user_id: u128, password_hash: Seq<char>|
        bcrypt_verdict(request.password, password_hash) == Some(true) && (next, action) == (
            SignupState::Inserting,
            #[trigger] insertion(request, user_id, password_hash),
        )
}

/// Whether a registration may go from `state`, on `event`, to `next` with
/// `action`.
///
/// All is fixed but the id and the password hash of the new user.
pub open spec fn signup_moves(
    request: SignUpRequestView,
    state: SignupState,
    event: EventView,
    next: SignupState,
    action: ActionView,
) -> bool {
    match (state, event) {
        (SignupState::Start, EventView::Start) => (next, action) == (
            match signup_failure(request) {
                Some(failure) => (SignupState::Finished, ActionView::Reject(failure)),
                None => (SignupState::Connecting, ActionView::Ask(QueryView::Connect)),
            }
        ),
        (SignupState::Connecting, EventView::Connected(true)) => signup_inserts(request, next, action),
        (SignupState::Connecting, EventView::Connected(false)) => (next, action) == (
            SignupState::Finished,
            ActionView::Reject(Failure::SignupConnectionFailed),
        ),
        (SignupState::Inserting, EventView::UserInserted { user_id, username }) => (next, action) == (
            SignupState::Finished,
            ActionView::Reply(
                BodyView::SignedUp(
                    SignUpResponseView {
                        user_id: hyphenated(user_id),
                        username,
                        message: "User registered successfully"@,
                    },
                ),
            ),
        ),
        (SignupState::Inserting, EventView::Failed) => (next, action) == (
            SignupState::Checking,
            ActionView::Ask(QueryView::UsernameExists { username: request.username }),
        ),
        (SignupState::Inserting, EventView::Missing) => (next, action) == (
            SignupState::Checking,
            ActionView::Ask(QueryView::UsernameExists { username: request.username }),
        ),
        (SignupState::Checking, EventView::Exists(true)) => (next, action) == (
            SignupState::Finished,
            ActionView::Reject(Failure::UsernameTaken),
        ),
        (SignupState::Checking, EventView::Exists(false)) => (next, action) == (
            SignupState::Finished,
            ActionView::Reject(Failure::UserCreationFailed),
        ),
        (SignupState::Checking, EventView::Failed) => (next, action) == (
            SignupState::Finished,
            ActionView::Reject(Failure::SignupQueryFailed),
        ),
        (SignupState::Checking, EventView::Missing) => (next, action) == (
            SignupState::Finished,
            ActionView::Reject(Failure::SignupQueryFailed),
        ),
        _ => (next, action) == (SignupState::Finished, ActionView::Reject(Failure::UnexpectedEvent)),
    }
}

/// The step that asks for the user of `request` to be inserted under
/// `user_id`, with `password_hash` for the password.
pub fn insert_user(request: &SignUpRequest, user_id: u128, password_hash: String) -> (r: (
    SignupState,
    Action,
))
    ensures
        r.0 == SignupState::Inserting,
        r.1@ == insertion(request@, user_id, password_hash@),
{
    let query = Query::InsertUser { user_id, username: request.username.clone(), password_hash };
    (SignupState::Inserting, Action::Ask(query))
}

/// What is wrong with a request to register, if anything.
pub fn validate(request: &SignUpRequest) -> (r: Option<Failure>)
    ensures
        r == signup_failure(request@),
{
    if is_blank(request.username.as_str()) || is_blank(request.password.as_str()) {
        return Some(Failure::EmptyCredentials);
    }
    let username_length: usize = request.username.as_str().as_bytes().len();
    if username_length < USERNAME_MIN || username_length > USERNAME_MAX {
        return Some(Failure::UsernameLength);
    }
    if request.password.as_str().as_bytes().len() < PASSWORD_MIN {
        return Some(Failure::PasswordTooShort);
    }
    None
}

/// Registers a user, one step at a time: takes what came back and says what
/// to do next.
///
/// A request that is not valid is turned down before anything is asked.
/// Where the user is not inserted, the name is looked for, to tell a name
/// that is taken from another failure. The conversation ends with the new
/// user's id and name, or with a failure.
pub fn signup(request: &SignUpRequest, state: SignupState, event: Event) -> (r: (SignupState, Action))
    ensures
        signup_moves(request@, state, event@, r.0, r.1@),
{
    match (state, event) {
        (SignupState::Start, Event::Start) => match validate(request) {
            Some(failure) => (SignupState::Finished, Action::Reject(failure)),
            None => (SignupState::Connecting, Action::Ask(Query::Connect)),
        },
        (SignupState::Connecting, Event::Connected(true)) => {
            match hash(request.password.as_str()) {
                Ok(password_hash) => {
                    let user_id: u128 = new_v4();
                    insert_user(request, user_id, password_hash)
                },
                Err(_) => (SignupState::Finished, Action::Reject(Failure::PasswordHashingFailed)),
            }
        },
        (SignupState::Connecting, Event::Connected(false)) => (
            SignupState::Finished,
            Action::Reject(Failure::SignupConnectionFailed),
        ),
        (SignupState::Inserting, Event::UserInserted { user_id, username }) => (
            SignupState::Finished,
            Action::Reply(
                Body::SignedUp(
                    SignUpResponse {
                        user_id: to_text(user_id),
                        username,
                        message: "User registered successfully".to_owned(),
                    },
                ),
            ),
        ),
        (SignupState::Inserting, Event::Failed) => (
            SignupState::Checking,
            Action::Ask(Query::UsernameExists { username: request.username.clone() }),
        ),
        (SignupState::Inserting, Event::Missing) => (
            SignupState::Checking,
            Action::Ask(Query::UsernameExists { username: request.username.clone() }),
        ),
        (SignupState::Checking, Event::Exists(true)) => (
            SignupState::Finished,
            Action::Reject(Failure::UsernameTaken),
        ),
        (SignupState::Checking, Event::Exists(false)) => (
            SignupState::Finished,
            Action::Reject(Failure::UserCreationFailed),
        ),
        (SignupState::Checking, Event::Failed) => (
            SignupState::Finished,
            Action::Reject(Failure::SignupQueryFailed),
        ),
        (SignupState::Checking, Event::Missing) => (
            SignupState::Finished,
            Action::Reject(Failure::SignupQueryFailed),
        ),
        _ => (SignupState::Finished, Action::Reject(Failure::UnexpectedEvent)),
    }
}

} // verus!
