//! Raw files and the storage root.
use crate::errors::Failure;
use crate::model::Stores;
use crate::route::items::{file_step, within, FileState};
use crate::runs::{may_run, serves};
use crate::store::{ActionView, BodyView, EventView};
use crate::text::escapes;
use vstd::prelude::*;

verus! {

/// A path that is absolute or names a parent directory is never served.
pub proof fn escaping_path_is_turned_down(item: Seq<char>, stores: Stores, outcome: ActionView)
    requires
        escapes(item),
        serves(item, stores, outcome),
    ensures
        outcome == ActionView::Reject(Failure::PathTraversalRejected),
{
    reveal_with_fuel(may_run, 2);
}

/// A path that resolves to a place outside the storage root is never served,
/// whatever the service says the path and the root resolve to.
pub proof fn path_outside_the_root_is_turned_down(
    item: Seq<char>,
    path: Seq<Seq<char>>,
    base: Seq<Seq<char>>,
)
    requires
        !within(path, base),
    ensures
        file_step(
            item,
            FileState::Resolving,
            EventView::Resolved { path: Some(path), base: Some(base) },
        ) == (FileState::Finished, ActionView::Reject(Failure::PathEscapesRoot)),
{
}

/// A file is served only from within the storage root, and only for a path
/// that is acceptable as written.
pub proof fn served_file_lies_within_the_root(
    item: Seq<char>,
    state: FileState,
    event: EventView,
    path: Seq<Seq<char>>,
)
    requires
        file_step(item, state, event).1 == ActionView::Reply(BodyView::File { path }),
    ensures
        state == FileState::Resolving,
        event matches EventView::Resolved { path: Some(p), base: Some(b) } && p == path && within(
            path,
            b,
        ),
{
}

} // verus!
