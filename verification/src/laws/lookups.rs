//! Operations that only look.
use crate::model::Stores;
use crate::route::items::{FileState, ItemStateView, ListState};
use crate::route::user::login::SessionLoginState;
use crate::runs::{
    file_conduct, item_conduct, list_conduct, logs_in_by_token, may_run, retrieves, serves,
    session_login_conduct, validates, validity_conduct,
};
use crate::store::{ActionView, EventView};
use crate::types::LoginSessionView;
use crate::utility::{CredentialType, ValidityState};
use vstd::prelude::*;

verus! {

/// The validation of a credential changes nothing, whatever it comes to.
pub proof fn validation_changes_nothing(
    credential: Seq<char>,
    class: CredentialType,
    stores: Stores,
    outcome: ActionView,
    after: Stores,
)
    requires
        may_run(
            validity_conduct(credential, class),
            ValidityState::Start,
            EventView::Start,
            stores,
            Seq::empty(),
            3,
            outcome,
            after,
        ),
    ensures
        after == stores,
{
    reveal_with_fuel(may_run, 5);
}

/// A login by session token changes nothing, whatever it comes to: it stores
/// no session and touches none.
pub proof fn session_login_changes_nothing(
    request: LoginSessionView,
    stores: Stores,
    outcome: ActionView,
    after: Stores,
)
    requires
        may_run(
            session_login_conduct(request),
            SessionLoginState::Start,
            EventView::Start,
            stores,
            Seq::empty(),
            3,
            outcome,
            after,
        ),
    ensures
        after == stores,
{
    reveal_with_fuel(may_run, 5);
}

/// The retrieval of an item changes nothing, whatever it comes to.
pub proof fn retrieval_changes_nothing(
    item_id: Seq<char>,
    stores: Stores,
    outcome: ActionView,
    after: Stores,
)
    requires
        may_run(
            item_conduct(item_id),
            ItemStateView::Start,
            EventView::Start,
            stores,
            Seq::empty(),
            3,
            outcome,
            after,
        ),
    ensures
        after == stores,
{
    reveal_with_fuel(may_run, 5);
}

/// The listing of all content ids changes nothing, whatever it comes to.
pub proof fn listing_changes_nothing(stores: Stores, outcome: ActionView, after: Stores)
    requires
        may_run(
            list_conduct(),
            ListState::Start,
            EventView::Start,
            stores,
            Seq::empty(),
            2,
            outcome,
            after,
        ),
    ensures
        after == stores,
{
    reveal_with_fuel(may_run, 4);
}

/// The serving of a raw file changes nothing, whatever it comes to.
pub proof fn serving_changes_nothing(
    item: Seq<char>,
    stores: Stores,
    outcome: ActionView,
    after: Stores,
)
    requires
        may_run(
            file_conduct(item),
            FileState::Start,
            EventView::Start,
            stores,
            Seq::empty(),
            1,
            outcome,
            after,
        ),
    ensures
        after == stores,
{
    reveal_with_fuel(may_run, 3);
}

/// The retrieval of an item comes to one end.
pub proof fn retrieval_comes_to_one_end(
    item_id: Seq<char>,
    stores: Stores,
    one: ActionView,
    other: ActionView,
)
    requires
        retrieves(item_id, stores, one),
        retrieves(item_id, stores, other),
    ensures
        one == other,
{
    reveal_with_fuel(may_run, 5);
}

/// The serving of a raw file comes to one end.
pub proof fn serving_comes_to_one_end(
    item: Seq<char>,
    stores: Stores,
    one: ActionView,
    other: ActionView,
)
    requires
        serves(item, stores, one),
        serves(item, stores, other),
    ensures
        one == other,
{
    reveal_with_fuel(may_run, 3);
}

/// A login by session token comes to one end.
pub proof fn session_login_comes_to_one_end(
    request: LoginSessionView,
    stores: Stores,
    one: ActionView,
    other: ActionView,
)
    requires
        logs_in_by_token(request, stores, one),
        logs_in_by_token(request, stores, other),
    ensures
        one == other,
{
    reveal_with_fuel(may_run, 5);
}

/// The validation of a credential comes to one end.
pub proof fn validation_comes_to_one_end(
    credential: Seq<char>,
    class: CredentialType,
    stores: Stores,
    one: ActionView,
    other: ActionView,
)
    requires
        validates(credential, class, stores, one),
        validates(credential, class, stores, other),
    ensures
        one == other,
{
    reveal_with_fuel(may_run, 5);
}

} // verus!
