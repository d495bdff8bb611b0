//! The retrieval gateway: one item by its content id, the list of all
//! content ids, and the raw bytes of a stored file.
use crate::errors::Failure;
use crate::ident::{big_endian, hyphenated, parse_str, to_bytes, to_text, uuid_parsed};
use crate::store::{
    Action, ActionView, Body, BodyView, Event, EventView, Query, QueryView, StoredDocumentView,
};
use crate::text::{escapes, path_escapes};
use crate::types::{
    ItemResponse, ItemResponseView, ResponseFile, ResponseFileView, UploadJson, UploadJsonView,
};
use vstd::prelude::*;

verus! {

/// How far the listing of all content ids has come.
#[derive(Clone, Copy, Debug, PartialEq, Eq, Structural)]
pub enum ListState {
    /// Nothing was asked yet.
    Start,
    /// Waiting for a connection.
    Connecting,
    /// Waiting for the ids.
    Listing,
    /// Over.
    Finished,
}

/// How far the serving of a raw file has come.
#[derive(Clone, Copy, Debug, PartialEq, Eq, Structural)]
pub enum FileState {
    /// Nothing was asked yet.
    Start,
    /// The path is acceptable as written; waiting for what it resolves to.
    Resolving,
    /// Over.
    Finished,
}

/// How far the retrieval of one item has come.
#[derive(Clone, Debug, PartialEq, Eq)]
pub enum ItemState {
    /// Nothing was asked yet.
    Start,
    /// The content id is well formed; waiting for a connection.
    Connecting(u128),
    /// Waiting for the post row.
    FindingPost(u128),
    /// The post row is there, with this stored file name; waiting for the
    /// document.
    FindingDocument { filename: String },
    /// Over.
    Finished,
}

/// `ItemState`, as plain values.
pub enum ItemStateView {
    Start,
    Connecting(u128),
    FindingPost(u128),
    FindingDocument { filename: Seq<char> },
    Finished,
}

impl View for ItemState {
    type V = ItemStateView;

    open spec fn view(&self) -> ItemStateView {
        match self {
            ItemState::Start => ItemStateView::Start,
            ItemState::Connecting(x0) => ItemStateView::Connecting(*x0),
            ItemState::FindingPost(x0) => ItemStateView::FindingPost(*x0),
            ItemState::FindingDocument { filename } => ItemStateView::FindingDocument {
                filename: filename@,
            },
            ItemState::Finished => ItemStateView::Finished,
        }
    }
}

impl DeepView for ItemState {
    type V = ItemStateView;

    open spec fn deep_view(&self) -> ItemStateView {
        self.view()
    }
}

/// A field of a stored document as it is read back: empty where the document
/// has no text there.
pub open spec fn text_or_empty(field: Option<Seq<char>>) -> Seq<char> {
    match field {
        Some(text) => text,
        None => Seq::empty(),
    }
}

/// The metadata that is read back from a stored document.
pub open spec fn metadata_of(document: StoredDocumentView) -> UploadJsonView {
    UploadJsonView {
        title: text_or_empty(document.title),
        creator: text_or_empty(document.creator),
        source: text_or_empty(document.source),
        description: text_or_empty(document.description),
    }
}

/// Where a retrieval starts, where `parsed` is what the content id reads as:
/// a content id that is not well formed is turned down before anything is
/// asked.
pub open spec fn retrieval_start(parsed: Option<u128>) -> (ItemStateView, ActionView) {
    match parsed {
        Some(post_id) => (ItemStateView::Connecting(post_id), ActionView::Ask(QueryView::Connect)),
        None => (ItemStateView::Finished, ActionView::Reject(Failure::InvalidIdentifier)),
    }
}

/// Where a retrieval starts, where `parsed` is what the content id reads as.
pub fn start_retrieval(parsed: Option<u128>) -> (r: (ItemState, Action))
    ensures
        (r.0@, r.1@) == retrieval_start(parsed),
{
    match parsed {
        Some(post_id) => (ItemState::Connecting(post_id), Action::Ask(Query::Connect)),
        None => (ItemState::Finished, Action::Reject(Failure::InvalidIdentifier)),
    }
}

/// One step of the retrieval of the item with the content id `item_id`.
///
/// A content id that is not well formed is turned down before anything is
/// asked. The document is looked for by the bytes of the post row's content
/// id. A post row that is not there and a post row without its document are
/// two failures.
pub open spec fn item_step(item_id: Seq<char>, state: ItemStateView, event: EventView) -> (
    ItemStateView,
    ActionView,
) {
    match (state, event) {
        (ItemStateView::Start, EventView::Start) => retrieval_start(uuid_parsed(item_id)),
        (ItemStateView::Connecting(post_id), EventView::Connected(true)) => (
            ItemStateView::FindingPost(post_id),
            ActionView::Ask(QueryView::FindPost { post_id }),
        ),
        (ItemStateView::Connecting(_), EventView::Connected(false)) => (
            ItemStateView::Finished,
            ActionView::Reject(Failure::StoreUnavailable),
        ),
        (ItemStateView::FindingPost(_), EventView::PostRow { post_id, filename, content_type }) => (
            ItemStateView::FindingDocument { filename },
            ActionView::Ask(QueryView::FindDocument { key: big_endian(post_id) }),
        ),
        (ItemStateView::FindingPost(_), EventView::Missing) => (
            ItemStateView::Finished,
            ActionView::Reject(Failure::NotFound),
        ),
        (ItemStateView::FindingPost(_), EventView::Failed) => (
            ItemStateView::Finished,
            ActionView::Reject(Failure::NotFound),
        ),
        (ItemStateView::FindingDocument { filename }, EventView::Document(Some(document))) => (
            ItemStateView::Finished,
            ActionView::Reply(
                BodyView::Item(ItemResponseView { image: filename, metadata: metadata_of(document) }),
            ),
        ),
        (ItemStateView::FindingDocument { .. }, EventView::Document(None)) => (
            ItemStateView::Finished,
            ActionView::Reject(Failure::MetadataMissing),
        ),
        (ItemStateView::FindingDocument { .. }, EventView::Missing) => (
            ItemStateView::Finished,
            ActionView::Reject(Failure::MetadataMissing),
        ),
        (ItemStateView::FindingDocument { .. }, EventView::Failed) => (
            ItemStateView::Finished,
            ActionView::Reject(Failure::DocumentQueryFailed),
        ),
        _ => (ItemStateView::Finished, ActionView::Reject(Failure::UnexpectedEvent)),
    }
}

fn or_empty(field: Option<String>) -> (text: String)
    ensures
        text@ == text_or_empty(field.deep_view()),
{
    match field {
        Some(text) => text,
        None => String::new(),
    }
}

/// Retrieves the item with the content id `item_id`, one step at a time:
/// takes what came back and says what to do next. The conversation ends with
/// the item's stored file name and metadata, or with a failure.
pub fn get_one(item_id: &str, state: ItemState, event: Event) -> (r: (ItemState, Action))
    ensures
        (r.0@, r.1@) == item_step(item_id@, state@, event@),
{
    match (state, event) {
        (ItemState::Start, Event::Start) => {
            let parsed = match parse_str(item_id) {
                Ok(post_id) => Some(post_id),
                Err(_) => None,
            };
            start_retrieval(parsed)
        },
        (ItemState::Connecting(post_id), Event::Connected(true)) => (
            ItemState::FindingPost(post_id),
            Action::Ask(Query::FindPost { post_id }),
        ),
        (ItemState::Connecting(_), Event::Connected(false)) => (
            ItemState::Finished,
            Action::Reject(Failure::StoreUnavailable),
        ),
        (ItemState::FindingPost(_), Event::PostRow { post_id, filename, content_type }) => (
            ItemState::FindingDocument { filename },
            Action::Ask(Query::FindDocument { key: to_bytes(post_id) }),
        ),
        (ItemState::FindingPost(_), Event::Missing) => (
            ItemState::Finished,
            Action::Reject(Failure::NotFound),
        ),
        (ItemState::FindingPost(_), Event::Failed) => (
            ItemState::Finished,
            Action::Reject(Failure::NotFound),
        ),
        (ItemState::FindingDocument { filename }, Event::Document(Some(document))) => {
            let metadata = UploadJson {
                title: or_empty(document.title),
                creator: or_empty(document.creator),
                source: or_empty(document.source),
                description: or_empty(document.description),
            };
            (
                ItemState::Finished,
                Action::Reply(Body::Item(ItemResponse { image: filename, metadata })),
            )
        },
        (ItemState::FindingDocument { .. }, Event::Document(None)) => (
            ItemState::Finished,
            Action::Reject(Failure::MetadataMissing),
        ),
        (ItemState::FindingDocument { .. }, Event::Missing) => (
            ItemState::Finished,
            Action::Reject(Failure::MetadataMissing),
        ),
        (ItemState::FindingDocument { .. }, Event::Failed) => (
            ItemState::Finished,
            Action::Reject(Failure::DocumentQueryFailed),
        ),
        _ => (ItemState::Finished, Action::Reject(Failure::UnexpectedEvent)),
    }
}

/// The content ids as text, in the order given.
pub open spec fn id_texts(ids: Seq<u128>) -> Seq<Seq<char>> {
    Seq::new(ids.len(), |i: int| hyphenated(ids[i]))
}

/// One step of the listing of all content ids.
pub open spec fn list_step(state: ListState, event: EventView) -> (ListState, ActionView) {
    match (state, event) {
        (ListState::Start, EventView::Start) => (
            ListState::Connecting,
            ActionView::Ask(QueryView::Connect),
        ),
        (ListState::Connecting, EventView::Connected(true)) => (
            ListState::Listing,
            ActionView::Ask(QueryView::FindAllPosts),
        ),
        (ListState::Connecting, EventView::Connected(false)) => (
            ListState::Finished,
            ActionView::Reject(Failure::StoreUnavailable),
        ),
        (ListState::Listing, EventView::PostIds(ids)) => (
            ListState::Finished,
            ActionView::Reply(BodyView::Files(ResponseFileView { file: id_texts(ids) })),
        ),
        (ListState::Listing, EventView::Failed) => (
            ListState::Finished,
            ActionView::Reject(Failure::ListingFailed),
        ),
        _ => (ListState::Finished, ActionView::Reject(Failure::UnexpectedEvent)),
    }
}

/// The content ids as text, in the order given.
pub fn texts_of(ids: &Vec<u128>) -> (texts: Vec<String>)
    ensures
        texts.deep_view() == id_texts(ids@),
{
    let mut texts: Vec<String> = Vec::new();
    let mut i: usize = 0;
    while i < ids.len()
        invariant
            i <= ids.len(),
            texts.len() == i,
            forall|j: int| 0 <= j < i ==> (#[trigger] texts@[j])@ == hyphenated(ids@[j]),
        decreases ids.len() - i,
    {
        texts.push(to_text(ids[i]));
        i = i + 1;
    }
    texts
}

/// Lists the content ids of all posts, one step at a time: takes what came
/// back and says what to do next. The ids come in the order of the store,
/// all of them.
pub fn get_all(state: ListState, event: Event) -> (r: (ListState, Action))
    ensures
        (r.0, r.1@) == list_step(state, event@),
{
    match (state, event) {
        (ListState::Start, Event::Start) => (ListState::Connecting, Action::Ask(Query::Connect)),
        (ListState::Connecting, Event::Connected(true)) => (
            ListState::Listing,
            Action::Ask(Query::FindAllPosts),
        ),
        (ListState::Connecting, Event::Connected(false)) => (
            ListState::Finished,
            Action::Reject(Failure::StoreUnavailable),
        ),
        (ListState::Listing, Event::PostIds(ids)) => (
            ListState::Finished,
            Action::Reply(Body::Files(ResponseFile { file: texts_of(&ids) })),
        ),
        (ListState::Listing, Event::Failed) => (
            ListState::Finished,
            Action::Reject(Failure::ListingFailed),
        ),
        _ => (ListState::Finished, Action::Reject(Failure::UnexpectedEvent)),
    }
}

/// Whether the path with the components `path` lies in or below the
/// directory with the components `base`.
pub open spec fn within(path: Seq<Seq<char>>, base: Seq<Seq<char>>) -> bool {
    base.is_prefix_of(path)
}

/// One step of the serving of the raw file that is asked for as `item`.
///
/// A path that is absolute or names a parent directory is turned down as it
/// is written, before anything is asked. A path that resolves to a place
/// outside the storage root is turned down too.
pub open spec fn file_step(item: Seq<char>, state: FileState, event: EventView) -> (
    FileState,
    ActionView,
) {
    match (state, event) {
        (FileState::Start, EventView::Start) => if escapes(item) {
            (FileState::Finished, ActionView::Reject(Failure::PathTraversalRejected))
        } else {
            (FileState::Resolving, ActionView::Ask(QueryView::Resolve { name: item }))
        },
        (FileState::Resolving, EventView::Resolved { path, base }) => (
            FileState::Finished,
            match (path, base) {
                (None, _) => ActionView::Reject(Failure::FileUnavailable),
                (Some(_), None) => ActionView::Reject(Failure::BaseDirectoryMissing),
                (Some(path), Some(base)) => if within(path, base) {
                    ActionView::Reply(BodyView::File { path })
                } else {
                    ActionView::Reject(Failure::PathEscapesRoot)
                },
            },
        ),
        (FileState::Resolving, EventView::Failed) => (
            FileState::Finished,
            ActionView::Reject(Failure::FileUnavailable),
        ),
        (FileState::Resolving, EventView::Missing) => (
            FileState::Finished,
            ActionView::Reject(Failure::FileUnavailable),
        ),
        _ => (FileState::Finished, ActionView::Reject(Failure::UnexpectedEvent)),
    }
}

/// Whether the path with the components `path` lies in or below the
/// directory with the components `base`.
pub fn is_within(path: &Vec<String>, base: &Vec<String>) -> (r: bool)
    ensures
        r == within(path.deep_view(), base.deep_view()),
{
    if base.len() > path.len() {
        return false;
    }
    let mut i: usize = 0;
    while i < base.len()
        invariant
            i <= base.len() <= path.len(),
            forall|j: int| 0 <= j < i ==> (#[trigger] base@[j])@ == path@[j]@,
        decreases base.len() - i,
    {
        if base[i] != path[i] {
            assert(base.deep_view()[i as int] != path.deep_view().subrange(0, base.len() as int)[i as int]);
            return false;
        }
        i = i + 1;
    }
    true
}

/// Serves the raw file that is asked for as `item`, one step at a time:
/// takes what came back and says what to do next. The conversation ends with
/// the canonical path of the file to send, or with a failure.
pub fn open_file(item: &str, state: FileState, event: Event) -> (r: (FileState, Action))
    ensures
        (r.0, r.1@) == file_step(item@, state, event@),
{
    match (state, event) {
        (FileState::Start, Event::Start) => {
            if path_escapes(item) {
                (FileState::Finished, Action::Reject(Failure::PathTraversalRejected))
            } else {
                (FileState::Resolving, Action::Ask(Query::Resolve { name: item.to_owned() }))
            }
        },
        (FileState::Resolving, Event::Resolved { path, base }) => {
            let action = match (path, base) {
                (None, _) => Action::Reject(Failure::FileUnavailable),
                (Some(_), None) => Action::Reject(Failure::BaseDirectoryMissing),
                (Some(path), Some(base)) => {
                    if is_within(&path, &base) {
                        Action::Reply(Body::File { path })
                    } else {
                        Action::Reject(Failure::PathEscapesRoot)
                    }
                },
            };
            (FileState::Finished, action)
        },
        (FileState::Resolving, Event::Failed) => (
            FileState::Finished,
            Action::Reject(Failure::FileUnavailable),
        ),
        (FileState::Resolving, Event::Missing) => (
            FileState::Finished,
            Action::Reject(Failure::FileUnavailable),
        ),
        _ => (FileState::Finished, Action::Reject(Failure::UnexpectedEvent)),
    }
}

} // verus!
