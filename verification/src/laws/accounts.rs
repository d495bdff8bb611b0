//! Registration and login.
use crate::clock::{readable, Timestamp};
use crate::errors::Failure;
use crate::ident::hyphenated;
use crate::model::{
    any, in_the_way_of, only, only_the_added, with_id, with_id_or_name,
    with_name, SessionRecord, Stores, UserRecord,
};
use crate::password::bcrypt_verdict;
use crate::route::user::login::{issued, may_issue, LoginStateView};
use crate::route::user::signup::{insertion, signup_failure, SignupState};
use crate::runs::{login_conduct, logs_in, may_run, run_ends, run_goes_on, signs_up, signup_conduct};
use crate::store::{ActionView, BodyView, EventView, QueryView};
use crate::text::blank;
use crate::token::is_token;
use crate::types::{LoginRequestView, SignUpRequestView, SignUpResponseView};
use vstd::prelude::*;

verus! {

/// A registration that succeeds has inserted the user under the id that the
/// reply names, with a hash that the request's password verifies against; and
/// the name was free.
pub proof fn signup_inserts_the_user(
    request: SignUpRequestView,
    stores: Stores,
    reply: SignUpResponseView,
    after: Stores,
) -> (user: UserRecord)
    requires
        signs_up(request, stores, ActionView::Reply(BodyView::SignedUp(reply)), after),
    ensures
        signup_failure(request) is None,
        !any(stores.users, with_name(request.username)),
        !any(stores.users, with_id(user.user_id)),
        after == (Stores { users: stores.users.push(user), ..stores }),
        user.username == request.username,
        user.is_active,
        bcrypt_verdict(request.password, user.password_hash) == Some(true),
        reply.user_id == hyphenated(user.user_id),
        reply.username == request.username,
{
    reveal_with_fuel(may_run, 5);
    let user = after.users.last();
    user
}

/// A registration can succeed: for a valid request whose name has 3 to 255
/// characters and is free, with an id that is free and a hash that the
/// password verifies against, the registration may end with the reply that
/// names the id, and the user is inserted.
pub proof fn registration_can_succeed(
    request: SignUpRequestView,
    stores: Stores,
    user_id: u128,
    password_hash: Seq<char>,
)
    requires
        signup_failure(request) is None,
        3 <= request.username.len() <= 255,
        !any(stores.users, with_id_or_name(user_id, request.username)),
        bcrypt_verdict(request.password, password_hash) == Some(true),
    ensures
        signs_up(
            request,
            stores,
            ActionView::Reply(
                BodyView::SignedUp(
                    SignUpResponseView {
                        user_id: hyphenated(user_id),
                        username: request.username,
                        message: "User registered successfully"@,
                    },
                ),
            ),
            Stores {
                users: stores.users.push(
                    UserRecord { user_id, username: request.username, password_hash, is_active: true },
                ),
                ..stores
            },
        ),
{
    let moves = signup_conduct(request);
    let user = UserRecord { user_id, username: request.username, password_hash, is_active: true };
    let after = Stores { users: stores.users.push(user), ..stores };
    let reply = ActionView::Reply(
        BodyView::SignedUp(
            SignUpResponseView {
                user_id: hyphenated(user_id),
                username: request.username,
                message: "User registered successfully"@,
            },
        ),
    );
    let insert = QueryView::InsertUser { user_id, username: request.username, password_hash };
    let inserted = EventView::UserInserted { user_id, username: request.username };
    let none = Seq::<Seq<u8>>::empty();
    assert(insertion(request, user_id, password_hash) == ActionView::Ask(insert));
    run_ends(moves, SignupState::Inserting, inserted, after, none, 1, SignupState::Finished, reply);
    run_goes_on(
        moves,
        SignupState::Connecting,
        EventView::Connected(true),
        stores,
        none,
        2,
        SignupState::Inserting,
        insert,
        reply,
        after,
    );
    run_goes_on(
        moves,
        SignupState::Start,
        EventView::Start,
        stores,
        none,
        3,
        SignupState::Connecting,
        QueryView::Connect,
        reply,
        after,
    );
}

/// A login can succeed: for a name and a password that are not blank, where
/// one user has the name and the password verifies against that user's hash,
/// the login may end with any session that may be issued to the user and that
/// no session is in the way of; and that session is stored, not revoked.
pub proof fn login_can_succeed(
    request: LoginRequestView,
    stores: Stores,
    user: UserRecord,
    token_id: u128,
    session_token: Seq<char>,
    refresh_token: Seq<char>,
    now: Timestamp,
)
    requires
        !blank(request.username),
        !blank(request.password),
        only(stores.users, with_name(request.username)) == Some(user),
        bcrypt_verdict(request.password, user.password_hash) == Some(true),
        is_token(session_token),
        is_token(refresh_token),
        readable(now),
        !any(
            stores.sessions,
            in_the_way_of(
                issued(user.user_id, user.username, token_id, session_token, refresh_token, now).0,
            ),
        ),
    ensures
        ({
            let (row, reply) = issued(
                user.user_id,
                user.username,
                token_id,
                session_token,
                refresh_token,
                now,
            );
            logs_in(
                request,
                stores,
                ActionView::Reply(BodyView::Session(reply)),
                Stores {
                    sessions: stores.sessions.push(SessionRecord { row, is_revoked: false }),
                    ..stores
                },
            )
        }),
{
    let moves = login_conduct(request);
    let (row, reply) = issued(
        user.user_id,
        user.username,
        token_id,
        session_token,
        refresh_token,
        now,
    );
    let after = Stores {
        sessions: stores.sessions.push(SessionRecord { row, is_revoked: false }),
        ..stores
    };
    let outcome = ActionView::Reply(BodyView::Session(reply));
    let none = Seq::<Seq<u8>>::empty();
    let find = QueryView::FindUser { username: request.username };
    let found = EventView::User {
        user_id: user.user_id,
        password_hash: user.password_hash,
        username: user.username,
    };
    let insert = QueryView::InsertSession(row);
    assert(may_issue(user.user_id, user.username, row, reply));
    run_ends(
        moves,
        LoginStateView::Storing(reply),
        EventView::Done,
        after,
        none,
        0,
        LoginStateView::Finished,
        outcome,
    );
    run_goes_on(
        moves,
        LoginStateView::Finding,
        found,
        stores,
        none,
        1,
        LoginStateView::Storing(reply),
        insert,
        outcome,
        after,
    );
    run_goes_on(
        moves,
        LoginStateView::Connecting,
        EventView::Connected(true),
        stores,
        none,
        2,
        LoginStateView::Finding,
        find,
        outcome,
        after,
    );
    run_goes_on(
        moves,
        LoginStateView::Start,
        EventView::Start,
        stores,
        none,
        3,
        LoginStateView::Connecting,
        QueryView::Connect,
        outcome,
        after,
    );
}

/// A user who has registered can log in: a login with the name and the
/// password of a registration that succeeded hands out a session for the
/// user id that the registration returned.
///
/// The one way for such a login to fail, against stores that do not fail, is
/// that the new session is not stored, because its id or its session token,
/// which are drawn at random, is taken already.
pub proof fn login_follows_signup(
    request: SignUpRequestView,
    stores: Stores,
    reply: SignUpResponseView,
    between: Stores,
    outcome: ActionView,
    after: Stores,
)
    requires
        signs_up(request, stores, ActionView::Reply(BodyView::SignedUp(reply)), between),
        logs_in(
            LoginRequestView { username: request.username, password: request.password },
            between,
            outcome,
            after,
        ),
    ensures
        outcome == ActionView::Reject(Failure::SessionCreationFailed) || (outcome matches ActionView::Reply(
            BodyView::Session(session),
        ) && session.user_id == reply.user_id && session.username == reply.username),
{
    let user = signup_inserts_the_user(request, stores, reply, between);
    only_the_added(stores.users, with_name(request.username), user);
    reveal_with_fuel(may_run, 5);
}

} // verus!
