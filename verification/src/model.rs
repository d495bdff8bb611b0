//! A model of the stores and of the storage root: what they hold, and how
//! stores that are there and do not fail answer each query.
//!
//! The operations of this crate never see the stores; they see one answer at
//! a time. What they achieve together (that a user who registered can log
//! in, that what was ingested is read back) holds only if the service answers
//! as the model does. The model is the contract of the service for each
//! query.
use crate::ident::big_endian;
use crate::store::{EventView, QueryView, SessionRowView, StoredDocumentView};
use crate::types::PostView;
use vstd::prelude::*;

verus! {

/// A row of the user table.
pub struct UserRecord {
    pub user_id: u128,
    pub username: Seq<char>,
    pub password_hash: Seq<char>,
    pub is_active: bool,
}

/// A row of the session table.
pub struct SessionRecord {
    pub row: SessionRowView,
    pub is_revoked: bool,
}

/// A row of the developer-token table.
pub struct DevTokenRecord {
    pub user_id: u128,
    pub token_hash: Seq<char>,
    pub is_revoked: bool,
}

/// A row of the post table.
pub struct PostRecord {
    pub post_id: u128,
    pub user_id: u128,
    pub filename: Seq<char>,
    pub content_type: Seq<char>,
}

/// A post document, under the bytes that it holds for its content id.
pub struct DocumentRecord {
    pub key: Seq<u8>,
    pub document: PostView,
}

/// All that the relational store, the document store and the storage root
/// hold. The storage root is flat: it holds files by their names.
pub struct Stores {
    pub users: Seq<UserRecord>,
    pub sessions: Seq<SessionRecord>,
    pub dev_tokens: Seq<DevTokenRecord>,
    pub posts: Seq<PostRecord>,
    pub documents: Seq<DocumentRecord>,
    pub root: Seq<Seq<char>>,
    pub files: Map<Seq<char>, Seq<u8>>,
}

/// Whether some row is wanted.
pub open spec fn any<T>(rows: Seq<T>, wanted: spec_fn(T) -> bool) -> bool {
    exists|i: int| 0 <= i < rows.len() && wanted(#[trigger] rows[i])
}

/// Whether the row at `i` is wanted and no other row is.
pub open spec fn only_at<T>(rows: Seq<T>, wanted: spec_fn(T) -> bool, i: int) -> bool {
    &&& 0 <= i < rows.len()
    &&& wanted(rows[i])
    &&& forall|j: int| 0 <= j < rows.len() && wanted(#[trigger] rows[j]) ==> j == i
}

/// The one row that is wanted; `None` where none is wanted, or several are.
pub open spec fn only<T>(rows: Seq<T>, wanted: spec_fn(T) -> bool) -> Option<T> {
    if exists|i: int| only_at(rows, wanted, i) {
        Some(rows[choose|i: int| only_at(rows, wanted, i)])
    } else {
        None
    }
}

/// Whether the row at `i` is wanted and no row before it is.
pub open spec fn first_at<T>(rows: Seq<T>, wanted: spec_fn(T) -> bool, i: int) -> bool {
    &&& 0 <= i < rows.len()
    &&& wanted(rows[i])
    &&& forall|j: int| 0 <= j < i ==> !wanted(#[trigger] rows[j])
}

/// The first row that is wanted.
pub open spec fn first<T>(rows: Seq<T>, wanted: spec_fn(T) -> bool) -> Option<T> {
    if exists|i: int| first_at(rows, wanted, i) {
        Some(rows[choose|i: int| first_at(rows, wanted, i)])
    } else {
        None
    }
}

/// Whether `name` names a file right in a directory: it is not empty, holds
/// no slash, and is neither `.` nor `..`.
pub open spec fn plain_name(name: Seq<char>) -> bool {
    &&& name.len() > 0
    &&& forall|i: int| 0 <= i < name.len() ==> #[trigger] name[i] != '/'
    &&& name != seq!['.']
    &&& name != seq!['.', '.']
}

/// A post document as it is read back: every field is text.
pub open spec fn read_back(document: PostView) -> StoredDocumentView {
    StoredDocumentView {
        title: Some(document.title),
        creator: Some(document.creator),
        source: Some(document.source),
        description: Some(document.description),
    }
}

/// Users with this id.
pub open spec fn with_id(user_id: u128) -> spec_fn(UserRecord) -> bool {
    |u: UserRecord| u.user_id == user_id
}

/// Users with this name.
pub open spec fn with_name(username: Seq<char>) -> spec_fn(UserRecord) -> bool {
    |u: UserRecord| u.username == username
}

/// Users in the way of a new user with this id and this name.
pub open spec fn with_id_or_name(user_id: u128, username: Seq<char>) -> spec_fn(UserRecord) -> bool {
    |u: UserRecord| u.user_id == user_id || u.username == username
}

/// Users with this id whose account is active.
pub open spec fn active_with_id(user_id: u128) -> spec_fn(UserRecord) -> bool {
    |u: UserRecord| u.user_id == user_id && u.is_active
}

/// Sessions in the way of a new session: with its id or its session token.
pub open spec fn in_the_way_of(row: SessionRowView) -> spec_fn(SessionRecord) -> bool {
    |s: SessionRecord| s.row.token_id == row.token_id || s.row.session_token == row.session_token
}

/// Sessions with this session token that are not revoked.
pub open spec fn with_session_token(session_token: Seq<char>) -> spec_fn(SessionRecord) -> bool {
    |s: SessionRecord| s.row.session_token == session_token && !s.is_revoked
}

/// Sessions with this refresh-token hash that are not revoked.
pub open spec fn with_refresh_hash(refresh_token_hash: Seq<char>) -> spec_fn(SessionRecord) -> bool {
    |s: SessionRecord| s.row.refresh_token_hash == refresh_token_hash && !s.is_revoked
}

/// Developer tokens stored under this text that are not revoked.
pub open spec fn with_token_hash(token_hash: Seq<char>) -> spec_fn(DevTokenRecord) -> bool {
    |t: DevTokenRecord| t.token_hash == token_hash && !t.is_revoked
}

/// Post rows with this content id.
pub open spec fn with_post_id(post_id: u128) -> spec_fn(PostRecord) -> bool {
    |p: PostRecord| p.post_id == post_id
}

/// Post rows whose content id has these bytes.
pub open spec fn with_key(key: Seq<u8>) -> spec_fn(PostRecord) -> bool {
    |p: PostRecord| big_endian(p.post_id) == key
}

/// Post documents that hold exactly these bytes for their content id.
pub open spec fn keyed(key: Seq<u8>) -> spec_fn(DocumentRecord) -> bool {
    |d: DocumentRecord| d.key == key
}

impl Stores {
    /// Whether a user has this id.
    pub open spec fn has_user(self, user_id: u128) -> bool {
        any(self.users, with_id(user_id))
    }

    /// Whether every document has its post row: a row whose content id has
    /// the bytes that the document holds.
    pub open spec fn paired(self) -> bool {
        forall|i: int|
            0 <= i < self.documents.len() ==> any(
                self.posts,
                with_key((#[trigger] self.documents[i]).key),
            )
    }

    /// How the stores answer `query`, and what they hold afterwards, where
    /// they are there and do not fail. `uploads` are the bytes of the files
    /// of the request in hand.
    ///
    /// A user is inserted if neither the id nor the name is taken and the
    /// name has 3 to 255 characters. A session is inserted if neither its id
    /// nor its session token is taken and its user is there. A post row is
    /// inserted if its id is not taken and its user is there. A file is
    /// written if its name names a file right in the storage root.
    pub open spec fn serve(self, query: QueryView, uploads: Seq<Seq<u8>>) -> (Stores, EventView) {
        match query {
            QueryView::Connect => (self, EventView::Connected(true)),
            QueryView::ConnectDocuments => (self, EventView::Connected(true)),
            QueryView::InsertUser { user_id, username, password_hash } => {
                if any(self.users, with_id_or_name(user_id, username)) || username.len() < 3
                    || username.len() > 255 {
                    (self, EventView::Failed)
                } else {
                    (
                        Stores {
                            users: self.users.push(
                                UserRecord { user_id, username, password_hash, is_active: true },
                            ),
                            ..self
                        },
                        EventView::UserInserted { user_id, username },
                    )
                }
            },
            QueryView::UsernameExists { username } => (
                self,
                EventView::Exists(any(self.users, with_name(username))),
            ),
            QueryView::FindUser { username } => (
                self,
                match only(self.users, with_name(username)) {
                    Some(u) => EventView::User {
                        user_id: u.user_id,
                        password_hash: u.password_hash,
                        username: u.username,
                    },
                    None => EventView::Missing,
                },
            ),
            QueryView::InsertSession(row) => {
                if any(self.sessions, in_the_way_of(row)) || !self.has_user(row.user_id) {
                    (self, EventView::Failed)
                } else {
                    (
                        Stores {
                            sessions: self.sessions.push(SessionRecord { row, is_revoked: false }),
                            ..self
                        },
                        EventView::Done,
                    )
                }
            },
            QueryView::FindSession { session_token } => (
                self,
                match only(self.sessions, with_session_token(session_token)) {
                    Some(s) => EventView::UserId(s.row.user_id),
                    None => EventView::Missing,
                },
            ),
            QueryView::FindRefresh { refresh_token_hash } => (
                self,
                match only(self.sessions, with_refresh_hash(refresh_token_hash)) {
                    Some(s) => EventView::Session {
                        user_id: s.row.user_id,
                        refresh_expires_at: s.row.refresh_expires_at,
                    },
                    None => EventView::Missing,
                },
            ),
            QueryView::FindDevToken { token_hash } => (
                self,
                match only(self.dev_tokens, with_token_hash(token_hash)) {
                    Some(t) => EventView::UserId(t.user_id),
                    None => EventView::Missing,
                },
            ),
            QueryView::FindActiveUser { user_id } => (
                self,
                EventView::Exists(only(self.users, active_with_id(user_id)) is Some),
            ),
            QueryView::FindUsername { user_id } => (
                self,
                match only(self.users, with_id(user_id)) {
                    Some(u) => EventView::Username(u.username),
                    None => EventView::Missing,
                },
            ),
            QueryView::PrepareInsertPost => (self, EventView::Done),
            QueryView::PersistFile { index, name } => {
                if index < uploads.len() && plain_name(name) {
                    (
                        Stores { files: self.files.insert(name, uploads[index as int]), ..self },
                        EventView::Done,
                    )
                } else {
                    (self, EventView::Failed)
                }
            },
            QueryView::InsertPost { post_id, user_id, filename, content_type } => {
                if any(self.posts, with_post_id(post_id)) || !self.has_user(user_id) {
                    (self, EventView::Failed)
                } else {
                    (
                        Stores {
                            posts: self.posts.push(
                                PostRecord { post_id, user_id, filename, content_type },
                            ),
                            ..self
                        },
                        EventView::Done,
                    )
                }
            },
            QueryView::InsertDocument { key, document } => (
                Stores {
                    documents: self.documents.push(DocumentRecord { key, document }),
                    ..self
                },
                EventView::Done,
            ),
            QueryView::FindPost { post_id } => (
                self,
                match only(self.posts, with_post_id(post_id)) {
                    Some(p) => EventView::PostRow {
                        post_id: p.post_id,
                        filename: p.filename,
                        content_type: p.content_type,
                    },
                    None => EventView::Missing,
                },
            ),
            QueryView::FindDocument { key } => (
                self,
                match first(self.documents, keyed(key)) {
                    Some(d) => EventView::Document(Some(read_back(d.document))),
                    None => EventView::Document(None),
                },
            ),
            QueryView::FindAllPosts => (
                self,
                EventView::PostIds(Seq::new(self.posts.len(), |i: int| self.posts[i].post_id)),
            ),
            QueryView::Resolve { name } => (
                self,
                EventView::Resolved {
                    path: if self.files.contains_key(name) {
                        Some(self.root.push(name))
                    } else {
                        None
                    },
                    base: Some(self.root),
                },
            ),
        }
    }
}

/// Among rows of which none was wanted, a wanted row that is added is the one
/// that is wanted.
pub proof fn only_the_added<T>(rows: Seq<T>, wanted: spec_fn(T) -> bool, row: T)
    requires
        !any(rows, wanted),
        wanted(row),
    ensures
        only(rows.push(row), wanted) == Some(row),
{
    assert(only_at(rows.push(row), wanted, rows.len() as int));
}

/// Among rows of which none was wanted, a wanted row that is added is the
/// first that is wanted.
pub proof fn first_the_added<T>(rows: Seq<T>, wanted: spec_fn(T) -> bool, row: T)
    requires
        !any(rows, wanted),
        wanted(row),
    ensures
        first(rows.push(row), wanted) == Some(row),
{
    assert(first_at(rows.push(row), wanted, rows.len() as int));
}

/// A row that is not wanted changes nothing of which row is the one wanted.
pub proof fn only_but_the_added<T>(rows: Seq<T>, wanted: spec_fn(T) -> bool, row: T)
    requires
        !wanted(row),
    ensures
        only(rows.push(row), wanted) == only(rows, wanted),
{
    let after = rows.push(row);
    assert forall|i: int| only_at(rows, wanted, i) == only_at(after, wanted, i) by {
        if only_at(after, wanted, i) {
            assert forall|j: int| 0 <= j < rows.len() && wanted(#[trigger] rows[j]) implies j
                == i by {
                assert(after[j] == rows[j]);
            }
        }
    }
}

/// A row that is added after the first wanted row leaves that row the first.
pub proof fn first_stays_first<T>(rows: Seq<T>, wanted: spec_fn(T) -> bool, row: T)
    requires
        first(rows, wanted) is Some,
    ensures
        first(rows.push(row), wanted) == first(rows, wanted),
{
    let i = choose|i: int| first_at(rows, wanted, i);
    assert(first_at(rows.push(row), wanted, i));
}

} // verus!
