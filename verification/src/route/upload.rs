//! The ingestion coordinator: for each uploaded item a file write, a post
//! row and a post document, in that order.
//!
//! The items of a batch are taken one after the other. Whatever fails ends
//! the batch, and nothing that was done before is undone: a file may stay
//! without its row, and a row without its document, never the other way
//! round.
use crate::errors::Failure;
use crate::ident::{big_endian, hyphenated, names, new_v4, to_bytes, to_text};
use crate::store::{Action, ActionView, BodyView, Event, EventView, Query, QueryView, Body};
use crate::text::{extension, extension_of};
use crate::types::{Post, PostView, ResponseFile, ResponseFileView, UploadFrom, UploadFromView};
use crate::utility::{check_user_validity_with_pool, validity_step, CredentialType, ValidityState};
use vstd::prelude::*;

verus! {

/// The bearer credential of a request, as its header gives it.
#[derive(Clone, Debug, PartialEq, Eq)]
pub enum Authorization {
    /// The request has no such header.
    Missing,
    /// The header's value is not text.
    Malformed,
    /// The credential: the header's whole value.
    Bearer(String),
}

/// `Authorization`, as plain values.
pub enum AuthorizationView {
    Missing,
    Malformed,
    Bearer(Seq<char>),
}

impl View for Authorization {
    type V = AuthorizationView;

    open spec fn view(&self) -> AuthorizationView {
        match self {
            Authorization::Missing => AuthorizationView::Missing,
            Authorization::Malformed => AuthorizationView::Malformed,
            Authorization::Bearer(x0) => AuthorizationView::Bearer(x0@),
        }
    }
}

impl DeepView for Authorization {
    type V = AuthorizationView;

    open spec fn deep_view(&self) -> AuthorizationView {
        self.view()
    }
}

/// Where an ingestion batch stands: the item in hand, and the stored names
/// of the items before it, which are complete.
#[derive(Clone, Debug, PartialEq, Eq)]
pub struct Progress {
    pub user_id: u128,
    pub index: usize,
    pub post_id: u128,
    pub new_filename: String,
    pub content_type: String,
    pub stored: Vec<String>,
}

/// `Progress`, as plain values.
pub struct ProgressView {
    pub user_id: u128,
    pub index: usize,
    pub post_id: u128,
    pub new_filename: Seq<char>,
    pub content_type: Seq<char>,
    pub stored: Seq<Seq<char>>,
}

impl View for Progress {
    type V = ProgressView;

    open spec fn view(&self) -> ProgressView {
        ProgressView {
            user_id: self.user_id,
            index: self.index,
            post_id: self.post_id,
            new_filename: self.new_filename@,
            content_type: self.content_type@,
            stored: self.stored.deep_view(),
        }
    }
}

impl DeepView for Progress {
    type V = ProgressView;

    open spec fn deep_view(&self) -> ProgressView {
        self.view()
    }
}

/// How far an ingestion has come.
#[derive(Clone, Debug, PartialEq, Eq)]
pub enum UploadState {
    /// Nothing was asked yet.
    Start,
    /// The bearer credential is being resolved.
    Authorizing(ValidityState),
    /// Waiting for the document store.
    ConnectingDocuments { user_id: u128 },
    /// Waiting for a connection to the relational store.
    Connecting { user_id: u128 },
    /// Waiting for the insert statement to be prepared.
    Preparing { user_id: u128 },
    /// Waiting for the item's file to be written.
    Persisting(Progress),
    /// The file is written; waiting for the item's post row.
    InsertingPost(Progress),
    /// The file is written and the post row is there; waiting for the
    /// item's document.
    InsertingDocument(Progress),
    /// Over.
    Finished,
}

/// `UploadState`, as plain values.
pub enum UploadStateView {
    Start,
    Authorizing(ValidityState),
    ConnectingDocuments { user_id: u128 },
    Connecting { user_id: u128 },
    Preparing { user_id: u128 },
    Persisting(ProgressView),
    InsertingPost(ProgressView),
    InsertingDocument(ProgressView),
    Finished,
}

impl View for UploadState {
    type V = UploadStateView;

    open spec fn view(&self) -> UploadStateView {
        match self {
            UploadState::Start => UploadStateView::Start,
            UploadState::Authorizing(x0) => UploadStateView::Authorizing(*x0),
            UploadState::ConnectingDocuments { user_id } => UploadStateView::ConnectingDocuments {
                user_id: *user_id,
            },
            UploadState::Connecting { user_id } => UploadStateView::Connecting {
                user_id: *user_id,
            },
            UploadState::Preparing { user_id } => UploadStateView::Preparing {
                user_id: *user_id,
            },
            UploadState::Persisting(x0) => UploadStateView::Persisting(x0@),
            UploadState::InsertingPost(x0) => UploadStateView::InsertingPost(x0@),
            UploadState::InsertingDocument(x0) => UploadStateView::InsertingDocument(x0@),
            UploadState::Finished => UploadStateView::Finished,
        }
    }
}

impl DeepView for UploadState {
    type V = UploadStateView;

    open spec fn deep_view(&self) -> UploadStateView {
        self.view()
    }
}

/// The name under which a file is stored: the content id, a dot, and the
/// extension of the name it came with.
pub open spec fn stored_name(post_id: u128, extension: Seq<char>) -> Seq<char> {
    hyphenated(post_id) + seq!['.'] + extension
}

/// The document for item number `index` of `form`.
pub open spec fn document_for(form: UploadFromView, index: int, post_id: u128, uploader: u128) -> PostView
    recommends
        0 <= index < form.metadata.len(),
{
    PostView {
        post_id,
        title: form.metadata[index].title,
        creator: form.metadata[index].creator,
        source: form.metadata[index].source,
        description: form.metadata[index].description,
        uploader,
    }
}

/// How the ingestion goes on when an answer arrived that it was not waiting
/// for: it ends.
pub open spec fn unexpected() -> (UploadStateView, ActionView) {
    (UploadStateView::Finished, ActionView::Reject(Failure::UnexpectedEvent))
}

/// Where item number `index` starts, with `post_id` as its new content id and
/// `stored` the names of the items before it.
///
/// Past the last item the batch is complete, and the reply lists the stored
/// names. An item without a content type, without a name, or with a name that
/// has no extension ends the batch. Otherwise the file is to be written under
/// its stored name.
pub open spec fn item_start(
    form: UploadFromView,
    user_id: u128,
    index: usize,
    stored: Seq<Seq<char>>,
    post_id: u128,
) -> (UploadStateView, ActionView) {
    if index >= form.file.len() || index >= form.metadata.len() {
        (UploadStateView::Finished, ActionView::Reply(BodyView::Files(ResponseFileView { file: stored })))
    } else {
        let file = form.file[index as int];
        if file.content_type is None {
            (UploadStateView::Finished, ActionView::Reject(Failure::ContentTypeMissing))
        } else if file.file_name is None {
            (UploadStateView::Finished, ActionView::Reject(Failure::FilenameMissing))
        } else if extension_of(file.file_name->0) is None {
            (UploadStateView::Finished, ActionView::Reject(Failure::MissingExtension))
        } else {
            let name = stored_name(post_id, extension_of(file.file_name->0)->0);
            (
                UploadStateView::Persisting(
                    ProgressView {
                        user_id,
                        index,
                        post_id,
                        new_filename: name,
                        content_type: file.content_type->0,
                        stored,
                    },
                ),
                ActionView::Ask(QueryView::PersistFile { index, name }),
            )
        }
    }
}

/// Whether the start of item number `index` may lead to `next` and `action`:
/// with some new content id, whose text, where a file is to be written under
/// it, reads back as that id.
pub open spec fn item_moves(
    form: UploadFromView,
    user_id: u128,
    index: usize,
    stored: Seq<Seq<char>>,
    next: UploadStateView,
    action: ActionView,
) -> bool {
    exists|post_id: u128|
        (next, action) == #[trigger] item_start(form, user_id, index, stored, post_id) && (action is Ask
            ==> names(hyphenated(post_id), post_id))
}

/// How the ingestion goes on with what the credential validator said.
pub open spec fn authorizing(step: (ValidityState, ActionView)) -> (UploadStateView, ActionView) {
    match step.1 {
        ActionView::Admit(user_id) => (
            UploadStateView::ConnectingDocuments { user_id },
            ActionView::Ask(QueryView::ConnectDocuments),
        ),
        ActionView::Reject(failure) => (UploadStateView::Finished, ActionView::Reject(failure)),
        ActionView::Ask(query) => (UploadStateView::Authorizing(step.0), ActionView::Ask(query)),
        ActionView::Reply(_) => unexpected(),
    }
}

/// Whether the ingestion may go from `state`, on `event`, to `next` with
/// `action`.
///
/// For all but the start of an item this fixes `next` and `action`; an item
/// starts with a content id that is drawn at random.
pub open spec fn upload_moves(
    form: UploadFromView,
    authorization: AuthorizationView,
    state: UploadStateView,
    event: EventView,
    next: UploadStateView,
    action: ActionView,
) -> bool {
    match (state, event) {
        (UploadStateView::Start, EventView::Start) => (next, action) == (
            if form.file.len() != form.metadata.len() {
                (UploadStateView::Finished, ActionView::Reject(Failure::CountMismatch))
            } else {
                match authorization {
                    AuthorizationView::Missing => (
                        UploadStateView::Finished,
                        ActionView::Reject(Failure::AuthorizationMissing),
                    ),
                    AuthorizationView::Malformed => (
                        UploadStateView::Finished,
                        ActionView::Reject(Failure::AuthorizationMalformed),
                    ),
                    AuthorizationView::Bearer(credential) => authorizing(
                        validity_step(
                            credential,
                            CredentialType::SessionToken,
                            ValidityState::Start,
                            EventView::Start,
                        ),
                    ),
                }
            }
        ),
        (UploadStateView::Authorizing(sub), _) => (next, action) == (
            match authorization {
                AuthorizationView::Bearer(credential) => authorizing(
                    validity_step(credential, CredentialType::SessionToken, sub, event),
                ),
                _ => unexpected(),
            }
        ),
        (UploadStateView::ConnectingDocuments { user_id }, EventView::Connected(true)) => (next, action)
            == (UploadStateView::Connecting { user_id }, ActionView::Ask(QueryView::Connect)),
        (UploadStateView::ConnectingDocuments { .. }, EventView::Connected(false)) => (next, action)
            == (UploadStateView::Finished, ActionView::Reject(Failure::DocumentStoreUnavailable)),
        (UploadStateView::Connecting { user_id }, EventView::Connected(true)) => (next, action) == (
            UploadStateView::Preparing { user_id },
            ActionView::Ask(QueryView::PrepareInsertPost),
        ),
        (UploadStateView::Connecting { .. }, EventView::Connected(false)) => (next, action) == (
            UploadStateView::Finished,
            ActionView::Reject(Failure::RelationalStoreUnavailable),
        ),
        (UploadStateView::Preparing { user_id }, EventView::Done) => item_moves(
            form,
            user_id,
            0,
            Seq::empty(),
            next,
            action,
        ),
        (UploadStateView::Preparing { .. }, EventView::Failed) => (next, action) == (
            UploadStateView::Finished,
            ActionView::Reject(Failure::PreparationFailed),
        ),
        (UploadStateView::Persisting(p), EventView::Done) => (next, action) == (
            UploadStateView::InsertingPost(p),
            ActionView::Ask(
                QueryView::InsertPost {
                    post_id: p.post_id,
                    user_id: p.user_id,
                    filename: p.new_filename,
                    content_type: p.content_type,
                },
            ),
        ),
        (UploadStateView::Persisting(_), EventView::Failed) => (next, action) == (
            UploadStateView::Finished,
            ActionView::Reject(Failure::StorageWriteFailed),
        ),
        (UploadStateView::InsertingPost(p), EventView::Done) => (next, action) == (
            if p.index < form.file.len() && p.index < form.metadata.len() {
                (
                    UploadStateView::InsertingDocument(p),
                    ActionView::Ask(
                        QueryView::InsertDocument {
                            key: big_endian(p.post_id),
                            document: document_for(form, p.index as int, p.post_id, p.user_id),
                        },
                    ),
                )
            } else {
                unexpected()
            }
        ),
        (UploadStateView::InsertingPost(_), EventView::Failed) => (next, action) == (
            UploadStateView::Finished,
            ActionView::Reject(Failure::RelationalInsertFailed),
        ),
        (UploadStateView::InsertingDocument(p), EventView::Done) => if p.index < form.file.len() {
            item_moves(
                form,
                p.user_id,
                (p.index + 1) as usize,
                p.stored.push(p.new_filename),
                next,
                action,
            )
        } else {
            (next, action) == unexpected()
        },
        (UploadStateView::InsertingDocument(_), EventView::Failed) => (next, action) == (
            UploadStateView::Finished,
            ActionView::Reject(Failure::DocumentInsertFailed),
        ),
        _ => (next, action) == unexpected(),
    }
}

/// Starts item number `index` with `post_id` as its new content id.
pub fn start_item(
    form: &UploadFrom,
    user_id: u128,
    index: usize,
    stored: Vec<String>,
    post_id: u128,
) -> (r: (UploadState, Action))
    ensures
        (r.0@, r.1@) == item_start(form@, user_id, index, stored.deep_view(), post_id),
        r.1 is Ask ==> names(hyphenated(post_id), post_id),
{
    if index >= form.file.len() || index >= form.metadata.len() {
        return (UploadState::Finished, Action::Reply(Body::Files(ResponseFile { file: stored })));
    }
    let file = &form.file[index];
    let content_type = match &file.content_type {
        Some(content_type) => content_type.clone(),
        None => {
            return (UploadState::Finished, Action::Reject(Failure::ContentTypeMissing));
        },
    };
    let filename = match &file.file_name {
        Some(name) => name,
        None => {
            return (UploadState::Finished, Action::Reject(Failure::FilenameMissing));
        },
    };
    let ext = match extension(filename.as_str()) {
        Some(ext) => ext,
        None => {
            return (UploadState::Finished, Action::Reject(Failure::MissingExtension));
        },
    };
    let mut new_filename = to_text(post_id);
    new_filename.append(".");
    new_filename.append(ext.as_str());
    proof {
        reveal_strlit(".");
        assert("."@ =~= seq!['.']);
    }
    let name = new_filename.clone();
    (
        UploadState::Persisting(
            Progress { user_id, index, post_id, new_filename, content_type, stored },
        ),
        Action::Ask(Query::PersistFile { index, name }),
    )
}

/// How the ingestion goes on with what the credential validator said.
fn authorize(step: (ValidityState, Action)) -> (r: (UploadState, Action))
    ensures
        (r.0@, r.1@) == authorizing((step.0, step.1@)),
{
    match step.1 {
        Action::Admit(user_id) => (
            UploadState::ConnectingDocuments { user_id },
            Action::Ask(Query::ConnectDocuments),
        ),
        Action::Reject(failure) => (UploadState::Finished, Action::Reject(failure)),
        Action::Ask(query) => (UploadState::Authorizing(step.0), Action::Ask(query)),
        Action::Reply(_) => (UploadState::Finished, Action::Reject(Failure::UnexpectedEvent)),
    }
}

/// Ingests a batch, one step at a time: takes what came back and says what
/// to do next.
///
/// A batch with another number of metadata entries than of files is turned
/// down before anything is asked of a store. Then the bearer credential is
/// resolved as a session token, the stores are reached, and the items are
/// taken in order. The conversation ends with the stored names of all items,
/// or with the first failure.
pub fn upload(
    form: &UploadFrom,
    authorization: &Authorization,
    state: UploadState,
    event: Event,
) -> (r: (UploadState, Action))
    ensures
        upload_moves(form@, authorization@, state@, event@, r.0@, r.1@),
{
    match (state, event) {
        (UploadState::Start, Event::Start) => {
            if form.file.len() != form.metadata.len() {
                return (UploadState::Finished, Action::Reject(Failure::CountMismatch));
            }
            match authorization {
                Authorization::Missing => (
                    UploadState::Finished,
                    Action::Reject(Failure::AuthorizationMissing),
                ),
                Authorization::Malformed => (
                    UploadState::Finished,
                    Action::Reject(Failure::AuthorizationMalformed),
                ),
                Authorization::Bearer(credential) => authorize(
                    check_user_validity_with_pool(
                        credential.as_str(),
                        CredentialType::SessionToken,
                        ValidityState::Start,
                        Event::Start,
                    ),
                ),
            }
        },
        (UploadState::Authorizing(sub), event) => match authorization {
            Authorization::Bearer(credential) => authorize(
                check_user_validity_with_pool(
                    credential.as_str(),
                    CredentialType::SessionToken,
                    sub,
                    event,
                ),
            ),
            _ => (UploadState::Finished, Action::Reject(Failure::UnexpectedEvent)),
        },
        (UploadState::ConnectingDocuments { user_id }, Event::Connected(true)) => (
            UploadState::Connecting { user_id },
            Action::Ask(Query::Connect),
        ),
        (UploadState::ConnectingDocuments { .. }, Event::Connected(false)) => (
            UploadState::Finished,
            Action::Reject(Failure::DocumentStoreUnavailable),
        ),
        (UploadState::Connecting { user_id }, Event::Connected(true)) => (
            UploadState::Preparing { user_id },
            Action::Ask(Query::PrepareInsertPost),
        ),
        (UploadState::Connecting { .. }, Event::Connected(false)) => (
            UploadState::Finished,
            Action::Reject(Failure::RelationalStoreUnavailable),
        ),
        (UploadState::Preparing { user_id }, Event::Done) => {
            let stored: Vec<String> = Vec::new();
            assert(stored.deep_view() =~= Seq::<Seq<char>>::empty());
            let post_id: u128 = new_v4();
            start_item(form, user_id, 0, stored, post_id)
        },
        (UploadState::Preparing { .. }, Event::Failed) => (
            UploadState::Finished,
            Action::Reject(Failure::PreparationFailed),
        ),
        (UploadState::Persisting(p), Event::Done) => {
            let query = Query::InsertPost {
                post_id: p.post_id,
                user_id: p.user_id,
                filename: p.new_filename.clone(),
                content_type: p.content_type.clone(),
            };
            (UploadState::InsertingPost(p), Action::Ask(query))
        },
        (UploadState::Persisting(_), Event::Failed) => (
            UploadState::Finished,
            Action::Reject(Failure::StorageWriteFailed),
        ),
        (UploadState::InsertingPost(p), Event::Done) => {
            if p.index < form.file.len() && p.index < form.metadata.len() {
                let metadata = &form.metadata[p.index];
                let article = Post {
                    post_id: p.post_id,
                    title: metadata.title.clone(),
                    creator: metadata.creator.clone(),
                    source: metadata.source.clone(),
                    description: metadata.description.clone(),
                    uploader: p.user_id,
                };
                let key = to_bytes(p.post_id);
                (
                    UploadState::InsertingDocument(p),
                    Action::Ask(Query::InsertDocument { key, document: article }),
                )
            } else {
                (UploadState::Finished, Action::Reject(Failure::UnexpectedEvent))
            }
        },
        (UploadState::InsertingPost(_), Event::Failed) => (
            UploadState::Finished,
            Action::Reject(Failure::RelationalInsertFailed),
        ),
        (UploadState::InsertingDocument(p), Event::Done) => {
            if p.index < form.file.len() {
                let ghost before = p.stored.deep_view();
                let mut received_files = p.stored;
                received_files.push(p.new_filename);
                assert(received_files.deep_view() =~= before.push(p.new_filename@));
                let post_id: u128 = new_v4();
                start_item(form, p.user_id, p.index + 1, received_files, post_id)
            } else {
                (UploadState::Finished, Action::Reject(Failure::UnexpectedEvent))
            }
        },
        (UploadState::InsertingDocument(_), Event::Failed) => (
            UploadState::Finished,
            Action::Reject(Failure::DocumentInsertFailed),
        ),
        _ => (UploadState::Finished, Action::Reject(Failure::UnexpectedEvent)),
    }
}

} // verus!
