//! Conversations, run to their end against the model of the stores.
use crate::clock::Timestamp;
use crate::model::Stores;
use crate::route::items::{file_step, item_step, list_step, FileState, ItemStateView, ListState};
use crate::route::upload::{upload_moves, AuthorizationView, UploadStateView};
use crate::route::user::login::{
    login_moves, refresh_moves, session_login_step, LoginStateView, RefreshStateView,
    SessionLoginState,
};
use crate::route::user::signup::{signup_moves, SignupState};
use crate::store::{ActionView, EventView, QueryView};
use crate::types::{
    LoginRequestView, LoginSessionView, RefreshTokenView, SignUpRequestView, UploadFromView,
};
use crate::utility::{validity_step, CredentialType, ValidityState};
use vstd::prelude::*;

verus! {

/// Whether a conversation that stands at `state` with `event` in hand may
/// end with `outcome` and leave the stores as `after`, where every query is
/// answered as the model answers it and at most `fuel` queries are asked.
pub open spec fn may_run<S>(
    moves: spec_fn(S, EventView, S, ActionView) -> bool,
    state: S,
    event: EventView,
    stores: Stores,
    uploads: Seq<Seq<u8>>,
    fuel: nat,
    outcome: ActionView,
    after: Stores,
) -> bool
    decreases fuel,
{
    exists|next: S, action: ActionView| #[trigger]
        moves(state, event, next, action) && match action {
            ActionView::Ask(query) => fuel > 0 && may_run(
                moves,
                next,
                stores.serve(query, uploads).1,
                stores.serve(query, uploads).0,
                uploads,
                (fuel - 1) as nat,
                outcome,
                after,
            ),
            _ => outcome == action && after == stores,
        }
}

/// A conversation whose next step ends it runs to that end and changes
/// nothing.
pub proof fn run_ends<S>(
    moves: spec_fn(S, EventView, S, ActionView) -> bool,
    state: S,
    event: EventView,
    stores: Stores,
    uploads: Seq<Seq<u8>>,
    fuel: nat,
    next: S,
    action: ActionView,
)
    requires
        moves(state, event, next, action),
        !(action is Ask),
    ensures
        may_run(moves, state, event, stores, uploads, fuel, action, stores),
{
}

/// A conversation whose next step asks a query runs to whatever end it runs
/// to once the query is answered.
pub proof fn run_goes_on<S>(
    moves: spec_fn(S, EventView, S, ActionView) -> bool,
    state: S,
    event: EventView,
    stores: Stores,
    uploads: Seq<Seq<u8>>,
    fuel: nat,
    next: S,
    query: QueryView,
    outcome: ActionView,
    after: Stores,
)
    requires
        fuel > 0,
        moves(state, event, next, ActionView::Ask(query)),
        may_run(
            moves,
            next,
            stores.serve(query, uploads).1,
            stores.serve(query, uploads).0,
            uploads,
            (fuel - 1) as nat,
            outcome,
            after,
        ),
    ensures
        may_run(moves, state, event, stores, uploads, fuel, outcome, after),
{
}

/// The steps that a registration may take.
pub open spec fn signup_conduct(request: SignUpRequestView) -> spec_fn(
    SignupState,
    EventView,
    SignupState,
    ActionView,
) -> bool {
    |state: SignupState, event: EventView, next: SignupState, action: ActionView|
        signup_moves(request, state, event, next, action)
}

/// The steps that a login by name and password may take.
pub open spec fn login_conduct(request: LoginRequestView) -> spec_fn(
    LoginStateView,
    EventView,
    LoginStateView,
    ActionView,
) -> bool {
    |state: LoginStateView, event: EventView, next: LoginStateView, action: ActionView|
        login_moves(request, state, event, next, action)
}

/// The steps that a login by session token takes.
pub open spec fn session_login_conduct(request: LoginSessionView) -> spec_fn(
    SessionLoginState,
    EventView,
    SessionLoginState,
    ActionView,
) -> bool {
    |state: SessionLoginState, event: EventView, next: SessionLoginState, action: ActionView|
        (next, action) == session_login_step(request, state, event)
}

/// The steps that a rotation may take while the clock shows `now`.
pub open spec fn refresh_conduct(request: RefreshTokenView, now: Timestamp) -> spec_fn(
    RefreshStateView,
    EventView,
    RefreshStateView,
    ActionView,
) -> bool {
    |state: RefreshStateView, event: EventView, next: RefreshStateView, action: ActionView|
        refresh_moves(request, now, state, event, next, action)
}

/// The steps that the validation of a credential takes.
pub open spec fn validity_conduct(credential: Seq<char>, class: CredentialType) -> spec_fn(
    ValidityState,
    EventView,
    ValidityState,
    ActionView,
) -> bool {
    |state: ValidityState, event: EventView, next: ValidityState, action: ActionView|
        (next, action) == validity_step(credential, class, state, event)
}

/// The steps that an ingestion may take.
pub open spec fn upload_conduct(form: UploadFromView, authorization: AuthorizationView) -> spec_fn(
    UploadStateView,
    EventView,
    UploadStateView,
    ActionView,
) -> bool {
    |state: UploadStateView, event: EventView, next: UploadStateView, action: ActionView|
        upload_moves(form, authorization, state, event, next, action)
}

/// The steps that the retrieval of an item takes.
pub open spec fn item_conduct(item_id: Seq<char>) -> spec_fn(
    ItemStateView,
    EventView,
    ItemStateView,
    ActionView,
) -> bool {
    |state: ItemStateView, event: EventView, next: ItemStateView, action: ActionView|
        (next, action) == item_step(item_id, state, event)
}

/// The steps that the listing of all content ids takes.
pub open spec fn list_conduct() -> spec_fn(ListState, EventView, ListState, ActionView) -> bool {
    |state: ListState, event: EventView, next: ListState, action: ActionView|
        (next, action) == list_step(state, event)
}

/// The steps that the serving of a raw file takes.
pub open spec fn file_conduct(item: Seq<char>) -> spec_fn(
    FileState,
    EventView,
    FileState,
    ActionView,
) -> bool {
    |state: FileState, event: EventView, next: FileState, action: ActionView|
        (next, action) == file_step(item, state, event)
}

/// Whether registering `request` may end with `outcome` and leave `after`.
pub open spec fn signs_up(
    request: SignUpRequestView,
    stores: Stores,
    outcome: ActionView,
    after: Stores,
) -> bool {
    may_run(
        signup_conduct(request),
        SignupState::Start,
        EventView::Start,
        stores,
        Seq::empty(),
        3,
        outcome,
        after,
    )
}

/// Whether logging in with `request` may end with `outcome` and leave
/// `after`.
pub open spec fn logs_in(
    request: LoginRequestView,
    stores: Stores,
    outcome: ActionView,
    after: Stores,
) -> bool {
    may_run(
        login_conduct(request),
        LoginStateView::Start,
        EventView::Start,
        stores,
        Seq::empty(),
        3,
        outcome,
        after,
    )
}

/// Whether logging in with the session token of `request` ends with
/// `outcome`.
pub open spec fn logs_in_by_token(request: LoginSessionView, stores: Stores, outcome: ActionView) -> bool {
    may_run(
        session_login_conduct(request),
        SessionLoginState::Start,
        EventView::Start,
        stores,
        Seq::empty(),
        3,
        outcome,
        stores,
    )
}

/// Whether rotating the refresh token of `request`, while the clock shows
/// `now`, may end with `outcome` and leave `after`.
pub open spec fn rotates(
    request: RefreshTokenView,
    now: Timestamp,
    stores: Stores,
    outcome: ActionView,
    after: Stores,
) -> bool {
    may_run(
        refresh_conduct(request, now),
        RefreshStateView::Start,
        EventView::Start,
        stores,
        Seq::empty(),
        4,
        outcome,
        after,
    )
}

/// Whether validating `credential` ends with `outcome`.
pub open spec fn validates(
    credential: Seq<char>,
    class: CredentialType,
    stores: Stores,
    outcome: ActionView,
) -> bool {
    may_run(
        validity_conduct(credential, class),
        ValidityState::Start,
        EventView::Start,
        stores,
        Seq::empty(),
        3,
        outcome,
        stores,
    )
}

/// Whether ingesting the batch `form`, whose files hold the bytes `uploads`,
/// may end with `outcome` and leave `after`.
pub open spec fn ingests(
    form: UploadFromView,
    authorization: AuthorizationView,
    uploads: Seq<Seq<u8>>,
    stores: Stores,
    outcome: ActionView,
    after: Stores,
) -> bool {
    may_run(
        upload_conduct(form, authorization),
        UploadStateView::Start,
        EventView::Start,
        stores,
        uploads,
        6 + 3 * form.file.len(),
        outcome,
        after,
    )
}

/// Whether retrieving the item with the content id `item_id` ends with
/// `outcome`.
pub open spec fn retrieves(item_id: Seq<char>, stores: Stores, outcome: ActionView) -> bool {
    may_run(
        item_conduct(item_id),
        ItemStateView::Start,
        EventView::Start,
        stores,
        Seq::empty(),
        3,
        outcome,
        stores,
    )
}

/// Whether listing all content ids ends with `outcome`.
pub open spec fn lists(stores: Stores, outcome: ActionView) -> bool {
    may_run(list_conduct(), ListState::Start, EventView::Start, stores, Seq::empty(), 2, outcome, stores)
}

/// Whether serving the raw file asked for as `item` ends with `outcome`.
pub open spec fn serves(item: Seq<char>, stores: Stores, outcome: ActionView) -> bool {
    may_run(
        file_conduct(item),
        FileState::Start,
        EventView::Start,
        stores,
        Seq::empty(),
        1,
        outcome,
        stores,
    )
}

} // verus!
