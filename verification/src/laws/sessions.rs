//! Session tokens, refresh tokens, and the validation of credentials.
use crate::clock::{REFRESH_LIFETIME, Timestamp};
use crate::errors::{AHError, ErrorKind, Failure};
use crate::ident::hyphenated;
use crate::model::{
    active_with_id, any, only, only_at, only_the_added, with_id, with_name,
    with_refresh_hash, with_session_token, with_token_hash, SessionRecord, Stores, UserRecord,
};
use crate::route::user::login::{expiry_decision, issued, refresh_moves, RefreshStateView};
use crate::runs::{logs_in, logs_in_by_token, may_run, rotates, validates};
use crate::store::{ActionView, BodyView, EventView};
use crate::text::blank;
use crate::token::{token_hash, token_is_not_blank};
use crate::types::{
    LoginRequestView, LoginResponseView, LoginSessionView, RefreshTokenView,
    SessionTokenResponseView,
};
use crate::utility::CredentialType;
use vstd::prelude::*;

verus! {

/// A session token stays good for as long as its session is not revoked: a
/// login by a session token that one session holds, and no other session that
/// is not revoked, gives the user of that session, whenever the session token
/// was meant to expire.
pub proof fn session_token_is_good_until_revoked(
    stores: Stores,
    session: SessionRecord,
    user: UserRecord,
    outcome: ActionView,
)
    requires
        only(stores.sessions, with_session_token(session.row.session_token)) == Some(session),
        only(stores.users, with_id(session.row.user_id)) == Some(user),
        !blank(session.row.session_token),
        logs_in_by_token(
            LoginSessionView { session_token: session.row.session_token },
            stores,
            outcome,
        ),
    ensures
        outcome == ActionView::Reply(
            BodyView::LoggedIn(
                LoginResponseView {
                    user_id: hyphenated(session.row.user_id),
                    username: user.username,
                    message: "login successfully."@,
                },
            ),
        ),
{
    reveal_with_fuel(may_run, 5);
}

/// A session token of which every session is revoked, or which no session
/// holds, is turned down.
pub proof fn revoked_session_token_is_turned_down(
    stores: Stores,
    request: LoginSessionView,
    outcome: ActionView,
)
    requires
        !any(stores.sessions, with_session_token(request.session_token)),
        logs_in_by_token(request, stores, outcome),
    ensures
        outcome == ActionView::Reject(Failure::InvalidSessionToken) || outcome == ActionView::Reject(
            Failure::BlankSessionToken,
        ),
{
    reveal_with_fuel(may_run, 5);
}

/// The session token that a login hands out is good at once: a login by it
/// gives the user id and the name that the login gave.
pub proof fn session_token_of_a_login_is_good(
    request: LoginRequestView,
    stores: Stores,
    session: SessionTokenResponseView,
    after: Stores,
    outcome: ActionView,
)
    requires
        forall|i: int, j: int|
            0 <= i < j < stores.users.len() ==> (#[trigger] stores.users[i]).user_id != (
            #[trigger] stores.users[j]).user_id,
        logs_in(request, stores, ActionView::Reply(BodyView::Session(session)), after),
        logs_in_by_token(LoginSessionView { session_token: session.session_token }, after, outcome),
    ensures
        outcome == ActionView::Reply(
            BodyView::LoggedIn(
                LoginResponseView {
                    user_id: session.user_id,
                    username: session.username,
                    message: "login successfully."@,
                },
            ),
        ),
{
    reveal_with_fuel(may_run, 5);
    let record = after.sessions.last();
    let row = record.row;
    token_is_not_blank(session.session_token);
    only_the_added(stores.sessions, with_session_token(row.session_token), record);
    let user = only(stores.users, with_name(request.username))->0;
    let k = choose|k: int| only_at(stores.users, with_name(request.username), k);
    assert(only_at(stores.users, with_id(user.user_id), k));
    session_token_is_good_until_revoked(after, record, user, outcome);
}

/// A refresh token whose expiry lies before the time at which it is checked
/// is turned down, and the rotation is over: nothing is issued.
pub proof fn expired_refresh_token_is_turned_down(
    user_id: u128,
    refresh_expires_at: Timestamp,
    now: Timestamp,
)
    requires
        refresh_expires_at.before(now),
    ensures
        expiry_decision(user_id, refresh_expires_at, now) == (
            RefreshStateView::Finished,
            ActionView::Reject(Failure::RefreshTokenExpired),
        ),
{
}

/// An expired refresh token is never rotated: where the expiry of the session
/// that a refresh token belongs to lies before the time that the clock shows,
/// the rotation ends with that failure, whatever else the stores hold, and
/// changes nothing.
pub proof fn expired_refresh_token_is_never_rotated(
    request: RefreshTokenView,
    now: Timestamp,
    stores: Stores,
    session: SessionRecord,
    outcome: ActionView,
    after: Stores,
)
    requires
        !blank(request.refresh_token),
        only(stores.sessions, with_refresh_hash(token_hash(request.refresh_token))) == Some(
            session,
        ),
        session.row.refresh_expires_at.before(now),
        rotates(request, now, stores, outcome, after),
    ensures
        outcome == ActionView::Reject(Failure::RefreshTokenExpired),
        after == stores,
{
    reveal_with_fuel(may_run, 4);
}

/// A refresh token is still good at the very time of its expiry.
pub proof fn refresh_token_is_good_at_its_expiry(user_id: u128, refresh_expires_at: Timestamp)
    ensures
        expiry_decision(user_id, refresh_expires_at, refresh_expires_at).1 is Ask,
{
}

/// A rotation that is over asks nothing more, whatever it is told.
pub proof fn finished_rotation_asks_nothing(
    request: RefreshTokenView,
    now: Timestamp,
    event: EventView,
    next: RefreshStateView,
    action: ActionView,
)
    requires
        refresh_moves(request, now, RefreshStateView::Finished, event, next, action),
    ensures
        next == RefreshStateView::Finished,
        action == ActionView::Reject(Failure::UnexpectedEvent),
{
}

/// The tokens that a session hands out are the ones that were drawn for it:
/// where neither is the token `old`, neither token of the reply is. The row
/// stores the session token as it is, and the refresh token by its hash.
pub proof fn issued_tokens_are_the_drawn_ones(
    user_id: u128,
    username: Seq<char>,
    token_id: u128,
    session_token: Seq<char>,
    refresh_token: Seq<char>,
    now: Timestamp,
    old: Seq<char>,
)
    requires
        session_token != old,
        refresh_token != old,
    ensures
        ({
            let (row, reply) = issued(user_id, username, token_id, session_token, refresh_token, now);
            &&& reply.session_token != old
            &&& reply.refresh_token != old
            &&& row.session_token == reply.session_token
            &&& row.refresh_token_hash == token_hash(reply.refresh_token)
            &&& row.user_id == user_id
        }),
{
}

/// Both expiries of a session that is issued lie after the time of issuance:
/// the session token's an hour after, the refresh token's thirty days after.
pub proof fn issued_session_expires_later(
    user_id: u128,
    username: Seq<char>,
    token_id: u128,
    session_token: Seq<char>,
    refresh_token: Seq<char>,
    now: Timestamp,
)
    requires
        now.secs + REFRESH_LIFETIME <= i64::MAX,
    ensures
        ({
            let row = issued(user_id, username, token_id, session_token, refresh_token, now).0;
            &&& now.before(row.session_expires_at)
            &&& now.before(row.refresh_expires_at)
            &&& row.session_expires_at.before(row.refresh_expires_at)
        }),
{
}

/// A rotation leaves every session as it was: it changes nothing, or it adds
/// the one session that it issues, which is not revoked. The session that the
/// refresh token belongs to is not revoked by it.
pub proof fn rotation_keeps_every_session(
    request: RefreshTokenView,
    now: Timestamp,
    stores: Stores,
    outcome: ActionView,
    after: Stores,
)
    requires
        rotates(request, now, stores, outcome, after),
    ensures
        after == stores || (outcome is Reply && after.sessions.len() == stores.sessions.len() + 1
            && !after.sessions.last().is_revoked && after == (Stores {
            sessions: stores.sessions.push(after.sessions.last()),
            ..stores
        })),
        outcome matches ActionView::Reply(BodyView::Session(reply)) ==> {
            &&& only(stores.sessions, with_refresh_hash(token_hash(request.refresh_token)))
                matches Some(found)
            &&& reply.user_id == hyphenated(found.row.user_id)
            &&& after.sessions.last().row.user_id == found.row.user_id
            &&& after.sessions.last().row.session_token == reply.session_token
            &&& after.sessions.last().row.refresh_token_hash == token_hash(reply.refresh_token)
        },
{
    reveal_with_fuel(may_run, 6);
}

/// Only an active user is admitted, and only by a credential that resolves
/// to that user in the class under which it was presented.
pub proof fn admitted_user_is_active(
    credential: Seq<char>,
    class: CredentialType,
    stores: Stores,
    user_id: u128,
)
    requires
        validates(credential, class, stores, ActionView::Admit(user_id)),
    ensures
        only(stores.users, active_with_id(user_id)) is Some,
        match class {
            CredentialType::SessionToken => only(stores.sessions, with_session_token(credential))
                matches Some(s) && s.row.user_id == user_id,
            CredentialType::DevToken => only(stores.dev_tokens, with_token_hash(credential))
                matches Some(t) && t.user_id == user_id,
        },
{
    reveal_with_fuel(may_run, 5);
}

/// The user that a credential of the given class resolves to, if any.
pub open spec fn resolves_to(credential: Seq<char>, class: CredentialType, stores: Stores) -> Option<u128> {
    match class {
        CredentialType::SessionToken => match only(
            stores.sessions,
            with_session_token(credential),
        ) {
            Some(s) => Some(s.row.user_id),
            None => None,
        },
        CredentialType::DevToken => match only(stores.dev_tokens, with_token_hash(credential)) {
            Some(t) => Some(t.user_id),
            None => None,
        },
    }
}

/// Against stores that do not fail, the validation of a credential comes to
/// one of three ends, whichever class the credential has: a credential that
/// does not resolve is invalid; one that resolves to a user who is not there
/// or not active meets a suspended account; any other is admitted as that
/// user.
pub proof fn validation_comes_to_one_of_three_ends(
    credential: Seq<char>,
    class: CredentialType,
    stores: Stores,
    outcome: ActionView,
)
    requires
        validates(credential, class, stores, outcome),
    ensures
        outcome == (match resolves_to(credential, class, stores) {
            None => ActionView::Reject(
                Failure::Denied(ErrorKind::AuthError(AHError::InvalidCredential)),
            ),
            Some(user_id) => if only(stores.users, active_with_id(user_id)) is Some {
                ActionView::Admit(user_id)
            } else {
                ActionView::Reject(Failure::Denied(ErrorKind::AuthError(AHError::AccountSuspended)))
            },
        }),
{
    reveal_with_fuel(may_run, 5);
}

} // verus!
