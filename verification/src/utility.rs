//! The credential validator: from a bearer credential to the active user it
//! belongs to.
use crate::errors::{AHError, DBError, DBType, ErrorKind, Failure, Rejection};
use crate::store::{Action, ActionView, Event, EventView, Query, QueryView};
use vstd::prelude::*;

verus! {

/// The class of a bearer credential. The operation that is called decides
/// the class; the credential does not say what it is.
#[derive(Clone, Copy, Debug, PartialEq, Eq, Structural)]
pub enum CredentialType {
    SessionToken,
    DevToken,
}

/// How far the validation of a credential has come.
#[derive(Clone, Copy, Debug, PartialEq, Eq, Structural)]
pub enum ValidityState {
    /// Nothing was asked yet.
    Start,
    /// Waiting for a connection.
    Connecting,
    /// Waiting for the user that the credential belongs to.
    Finding,
    /// Waiting to hear whether this user's account is active.
    Checking(u128),
    /// Over.
    Finished,
}

/// The lookup that resolves a credential of the given class.
pub open spec fn credential_query(credential: Seq<char>, class: CredentialType) -> QueryView {
    match class {
        CredentialType::DevToken => QueryView::FindDevToken { token_hash: credential },
        CredentialType::SessionToken => QueryView::FindSession { session_token: credential },
    }
}

/// One step of the validation.
///
/// A credential that no store knows is an invalid credential; a user who is
/// not there, or not active, is a suspended account, whichever class the
/// credential has; a store that fails at either lookup is a database error,
/// so that a caller can tell "try again" from "reject".
pub open spec fn validity_step(
    credential: Seq<char>,
    class: CredentialType,
    state: ValidityState,
    event: EventView,
) -> (ValidityState, ActionView) {
    match (state, event) {
        (ValidityState::Start, EventView::Start) => (
            ValidityState::Connecting,
            ActionView::Ask(QueryView::Connect),
        ),
        (ValidityState::Connecting, EventView::Connected(true)) => (
            ValidityState::Finding,
            ActionView::Ask(credential_query(credential, class)),
        ),
        (ValidityState::Connecting, EventView::Connected(false)) => (
            ValidityState::Finished,
            ActionView::Reject(
                Failure::Denied(
                    ErrorKind::DatabaseError(DBError::ConnectionFailed(DBType::Postgres)),
                ),
            ),
        ),
        (ValidityState::Finding, EventView::UserId(user_id)) => (
            ValidityState::Checking(user_id),
            ActionView::Ask(QueryView::FindActiveUser { user_id }),
        ),
        (ValidityState::Finding, EventView::Missing) => (
            ValidityState::Finished,
            ActionView::Reject(Failure::Denied(ErrorKind::AuthError(AHError::InvalidCredential))),
        ),
        (ValidityState::Finding, EventView::Failed) => (
            ValidityState::Finished,
            ActionView::Reject(
                Failure::Denied(ErrorKind::DatabaseError(DBError::QueryFailed(DBType::Postgres))),
            ),
        ),
        (ValidityState::Checking(user_id), EventView::Exists(true)) => (
            ValidityState::Finished,
            ActionView::Admit(user_id),
        ),
        (ValidityState::Checking(_), EventView::Exists(false)) => (
            ValidityState::Finished,
            ActionView::Reject(Failure::Denied(ErrorKind::AuthError(AHError::AccountSuspended))),
        ),
        (ValidityState::Checking(_), EventView::Missing) => (
            ValidityState::Finished,
            ActionView::Reject(Failure::Denied(ErrorKind::AuthError(AHError::AccountSuspended))),
        ),
        (ValidityState::Checking(_), EventView::Failed) => (
            ValidityState::Finished,
            ActionView::Reject(
                Failure::Denied(ErrorKind::DatabaseError(DBError::QueryFailed(DBType::Postgres))),
            ),
        ),
        _ => (ValidityState::Finished, ActionView::Reject(Failure::UnexpectedEvent)),
    }
}

/// Resolves a bearer credential of the given class to the active user it
/// belongs to, one step at a time: takes what came back and says what to do
/// next. The conversation ends with `Admit` and the user's id, or with
/// `Reject`.
pub fn check_user_validity_with_pool(
    credential: &str,
    credential_type: CredentialType,
    state: ValidityState,
    event: Event,
) -> (r: (ValidityState, Action))
    ensures
        (r.0, r.1@) == validity_step(credential@, credential_type, state, event@),
{
    match (state, event) {
        (ValidityState::Start, Event::Start) => (ValidityState::Connecting, Action::Ask(Query::Connect)),
        (ValidityState::Connecting, Event::Connected(true)) => {
            let query = match credential_type {
                CredentialType::DevToken => Query::FindDevToken { token_hash: credential.to_owned() },
                CredentialType::SessionToken => Query::FindSession {
                    session_token: credential.to_owned(),
                },
            };
            (ValidityState::Finding, Action::Ask(query))
        },
        (ValidityState::Connecting, Event::Connected(false)) => (
            ValidityState::Finished,
            Action::Reject(
                Failure::Denied(
                    ErrorKind::DatabaseError(DBError::ConnectionFailed(DBType::Postgres)),
                ),
            ),
        ),
        (ValidityState::Finding, Event::UserId(user_id)) => (
            ValidityState::Checking(user_id),
            Action::Ask(Query::FindActiveUser { user_id }),
        ),
        (ValidityState::Finding, Event::Missing) => (
            ValidityState::Finished,
            Action::Reject(Failure::Denied(ErrorKind::AuthError(AHError::InvalidCredential))),
        ),
        (ValidityState::Finding, Event::Failed) => (
            ValidityState::Finished,
            Action::Reject(
                Failure::Denied(ErrorKind::DatabaseError(DBError::QueryFailed(DBType::Postgres))),
            ),
        ),
        (ValidityState::Checking(user_id), Event::Exists(true)) => (
            ValidityState::Finished,
            Action::Admit(user_id),
        ),
        (ValidityState::Checking(_), Event::Exists(false)) => (
            ValidityState::Finished,
            Action::Reject(Failure::Denied(ErrorKind::AuthError(AHError::AccountSuspended))),
        ),
        (ValidityState::Checking(_), Event::Missing) => (
            ValidityState::Finished,
            Action::Reject(Failure::Denied(ErrorKind::AuthError(AHError::AccountSuspended))),
        ),
        (ValidityState::Checking(_), Event::Failed) => (
            ValidityState::Finished,
            Action::Reject(
                Failure::Denied(ErrorKind::DatabaseError(DBError::QueryFailed(DBType::Postgres))),
            ),
        ),
        _ => (ValidityState::Finished, Action::Reject(Failure::UnexpectedEvent)),
    }
}

/// How a credential that did not resolve is reported to the client.
pub fn generate_response(error: &ErrorKind) -> (r: Rejection)
    ensures
        r.status == (match *error {
            ErrorKind::AuthError(_) => 401u16,
            ErrorKind::DatabaseError(_) => 417u16,
        }),
        r.body.error@ == (match *error {
            ErrorKind::AuthError(AHError::InvalidCredential) => "invalid credential"@,
            ErrorKind::AuthError(AHError::UserInactive) => "user inactive"@,
            ErrorKind::AuthError(AHError::AccountSuspended) => "account suspended"@,
            ErrorKind::DatabaseError(_) => "Database error"@,
        }),
{
    Failure::Denied(*error).rejection()
}

} // verus!
