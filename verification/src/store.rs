//! What an operation asks of the stores and of the file system, what comes
//! back, and how a conversation ends.
//!
//! The service performs each query and hands back the event that tells how
//! it went. A query says exactly what is asked; the statement text and the
//! connection are the service's.
use crate::clock::Timestamp;
use crate::errors::Failure;
use crate::types::{
    ItemResponse, ItemResponseView, LoginResponse, LoginResponseView, Post, PostView,
    ResponseFile, ResponseFileView, SessionTokenResponse, SessionTokenResponseView,
    SignUpResponse, SignUpResponseView,
};
use vstd::prelude::*;

verus! {

/// A new row of the session table. The session token is kept in clear; of the
/// refresh token only the hash is kept.
#[derive(Clone, Debug, PartialEq, Eq)]
pub struct SessionRow {
    pub token_id: u128,
    pub user_id: u128,
    pub session_token: String,
    pub refresh_token_hash: String,
    pub session_expires_at: Timestamp,
    pub refresh_expires_at: Timestamp,
}

/// `SessionRow`, as plain values.
pub struct SessionRowView {
    pub token_id: u128,
    pub user_id: u128,
    pub session_token: Seq<char>,
    pub refresh_token_hash: Seq<char>,
    pub session_expires_at: Timestamp,
    pub refresh_expires_at: Timestamp,
}

impl View for SessionRow {
    type V = SessionRowView;

    open spec fn view(&self) -> SessionRowView {
        SessionRowView {
            token_id: self.token_id,
            user_id: self.user_id,
            session_token: self.session_token@,
            refresh_token_hash: self.refresh_token_hash@,
            session_expires_at: self.session_expires_at,
            refresh_expires_at: self.refresh_expires_at,
        }
    }
}

impl DeepView for SessionRow {
    type V = SessionRowView;

    open spec fn deep_view(&self) -> SessionRowView {
        self.view()
    }
}

/// The metadata as a post document holds it: a field is `None` where the
/// document lacks it or holds something other than text there.
#[derive(Clone, Debug, PartialEq, Eq)]
pub struct StoredDocument {
    pub title: Option<String>,
    pub creator: Option<String>,
    pub source: Option<String>,
    pub description: Option<String>,
}

/// `StoredDocument`, as plain values.
pub struct StoredDocumentView {
    pub title: Option<Seq<char>>,
    pub creator: Option<Seq<char>>,
    pub source: Option<Seq<char>>,
    pub description: Option<Seq<char>>,
}

impl View for StoredDocument {
    type V = StoredDocumentView;

    open spec fn view(&self) -> StoredDocumentView {
        StoredDocumentView {
            title: self.title.deep_view(),
            creator: self.creator.deep_view(),
            source: self.source.deep_view(),
            description: self.description.deep_view(),
        }
    }
}

impl DeepView for StoredDocument {
    type V = StoredDocumentView;

    open spec fn deep_view(&self) -> StoredDocumentView {
        self.view()
    }
}

/// What an operation asks of a store or of the file system.
#[derive(Clone, Debug, PartialEq, Eq)]
pub enum Query {
    /// Take a connection to the relational store from the pool.
    Connect,
    /// Reach the document store.
    ConnectDocuments,
    /// Insert a user, and read back the id and the name of the new row.
    InsertUser { user_id: u128, username: String, password_hash: String },
    /// Whether any user has this name.
    UsernameExists { username: String },
    /// The one user of this name: id, password hash, name.
    FindUser { username: String },
    /// Insert a session.
    InsertSession(SessionRow),
    /// The user of the one session that has this session token and is not
    /// revoked. The session's expiry is not looked at.
    FindSession { session_token: String },
    /// The user and the refresh expiry of the one session that has this
    /// refresh-token hash and is not revoked.
    FindRefresh { refresh_token_hash: String },
    /// The user of the one developer token that is stored under this text
    /// and is not revoked.
    FindDevToken { token_hash: String },
    /// Whether there is exactly one user with this id whose account is
    /// active.
    FindActiveUser { user_id: u128 },
    /// The name of the one user with this id.
    FindUsername { user_id: u128 },
    /// Prepare the statement that inserts a post row, once for a batch.
    PrepareInsertPost,
    /// Write the bytes of the upload's file number `index` to storage, under
    /// `name` in the storage root.
    PersistFile { index: usize, name: String },
    /// Insert a post row.
    InsertPost { post_id: u128, user_id: u128, filename: String, content_type: String },
    /// Insert a post document, with these sixteen bytes for its content id.
    InsertDocument { key: Vec<u8>, document: Post },
    /// The one post row with this content id.
    FindPost { post_id: u128 },
    /// The first post document whose content id has exactly these bytes.
    FindDocument { key: Vec<u8> },
    /// The content ids of all post rows.
    FindAllPosts,
    /// Resolve `name` under the storage root, and the storage root itself,
    /// to canonical paths.
    Resolve { name: String },
}

/// `Query`, as plain values.
pub enum QueryView {
    Connect,
    ConnectDocuments,
    InsertUser { user_id: u128, username: Seq<char>, password_hash: Seq<char> },
    UsernameExists { username: Seq<char> },
    FindUser { username: Seq<char> },
    InsertSession(SessionRowView),
    FindSession { session_token: Seq<char> },
    FindRefresh { refresh_token_hash: Seq<char> },
    FindDevToken { token_hash: Seq<char> },
    FindActiveUser { user_id: u128 },
    FindUsername { user_id: u128 },
    PrepareInsertPost,
    PersistFile { index: usize, name: Seq<char> },
    InsertPost { post_id: u128, user_id: u128, filename: Seq<char>, content_type: Seq<char> },
    InsertDocument { key: Seq<u8>, document: PostView },
    FindPost { post_id: u128 },
    FindDocument { key: Seq<u8> },
    FindAllPosts,
    Resolve { name: Seq<char> },
}

impl View for Query {
    type V = QueryView;

    open spec fn view(&self) -> QueryView {
        match self {
            Query::Connect => QueryView::Connect,
            Query::ConnectDocuments => QueryView::ConnectDocuments,
            Query::InsertUser { user_id, username, password_hash } => QueryView::InsertUser {
                user_id: *user_id,
                username: username@,
                password_hash: password_hash@,
            },
            Query::UsernameExists { username } => QueryView::UsernameExists {
                username: username@,
            },
            Query::FindUser { username } => QueryView::FindUser {
                username: username@,
            },
            Query::InsertSession(x0) => QueryView::InsertSession(x0@),
            Query::FindSession { session_token } => QueryView::FindSession {
                session_token: session_token@,
            },
            Query::FindRefresh { refresh_token_hash } => QueryView::FindRefresh {
                refresh_token_hash: refresh_token_hash@,
            },
            Query::FindDevToken { token_hash } => QueryView::FindDevToken {
                token_hash: token_hash@,
            },
            Query::FindActiveUser { user_id } => QueryView::FindActiveUser {
                user_id: *user_id,
            },
            Query::FindUsername { user_id } => QueryView::FindUsername {
                user_id: *user_id,
            },
            Query::PrepareInsertPost => QueryView::PrepareInsertPost,
            Query::PersistFile { index, name } => QueryView::PersistFile {
                index: *index,
                name: name@,
            },
            Query::InsertPost { post_id, user_id, filename, content_type } => QueryView::InsertPost {
                post_id: *post_id,
                user_id: *user_id,
                filename: filename@,
                content_type: content_type@,
            },
            Query::InsertDocument { key, document } => QueryView::InsertDocument {
                key: key@,
                document: document@,
            },
            Query::FindPost { post_id } => QueryView::FindPost {
                post_id: *post_id,
            },
            Query::FindDocument { key } => QueryView::FindDocument {
                key: key@,
            },
            Query::FindAllPosts => QueryView::FindAllPosts,
            Query::Resolve { name } => QueryView::Resolve {
                name: name@,
            },
        }
    }
}

impl DeepView for Query {
    type V = QueryView;

    open spec fn deep_view(&self) -> QueryView {
        self.view()
    }
}

/// What came back from the service.
#[derive(Clone, Debug, PartialEq, Eq)]
pub enum Event {
    /// The request has arrived: nothing was asked yet.
    Start,
    /// Whether the store could be reached.
    Connected(bool),
    /// The store failed, or the file was not written.
    Failed,
    /// The query ran and did not find exactly one row.
    Missing,
    /// The statement ran; the file was written.
    Done,
    /// Whether there is such a row.
    Exists(bool),
    /// The id and the name of the user row that was inserted.
    UserInserted { user_id: u128, username: String },
    /// The user row that was found.
    User { user_id: u128, password_hash: String, username: String },
    /// The user that the credential belongs to.
    UserId(u128),
    /// The user's name.
    Username(String),
    /// The session that was found by its refresh-token hash.
    Session { user_id: u128, refresh_expires_at: Timestamp },
    /// The post row that was found.
    PostRow { post_id: u128, filename: String, content_type: String },
    /// The post document, or `None` where the store holds none for the id.
    Document(Option<StoredDocument>),
    /// The content ids of all post rows, in the order of the store.
    PostIds(Vec<u128>),
    /// The components of the canonical path of the requested file and of the
    /// storage root; `None` for one that does not resolve.
    Resolved { path: Option<Vec<String>>, base: Option<Vec<String>> },
}

/// `Event`, as plain values.
pub enum EventView {
    Start,
    Connected(bool),
    Failed,
    Missing,
    Done,
    Exists(bool),
    UserInserted { user_id: u128, username: Seq<char> },
    User { user_id: u128, password_hash: Seq<char>, username: Seq<char> },
    UserId(u128),
    Username(Seq<char>),
    Session { user_id: u128, refresh_expires_at: Timestamp },
    PostRow { post_id: u128, filename: Seq<char>, content_type: Seq<char> },
    Document(Option<StoredDocumentView>),
    PostIds(Seq<u128>),
    Resolved { path: Option<Seq<Seq<char>>>, base: Option<Seq<Seq<char>>> },
}

impl View for Event {
    type V = EventView;

    open spec fn view(&self) -> EventView {
        match self {
            Event::Start => EventView::Start,
            Event::Connected(x0) => EventView::Connected(*x0),
            Event::Failed => EventView::Failed,
            Event::Missing => EventView::Missing,
            Event::Done => EventView::Done,
            Event::Exists(x0) => EventView::Exists(*x0),
            Event::UserInserted { user_id, username } => EventView::UserInserted {
                user_id: *user_id,
                username: username@,
            },
            Event::User { user_id, password_hash, username } => EventView::User {
                user_id: *user_id,
                password_hash: password_hash@,
                username: username@,
            },
            Event::UserId(x0) => EventView::UserId(*x0),
            Event::Username(x0) => EventView::Username(x0@),
            Event::Session { user_id, refresh_expires_at } => EventView::Session {
                user_id: *user_id,
                refresh_expires_at: *refresh_expires_at,
            },
            Event::PostRow { post_id, filename, content_type } => EventView::PostRow {
                post_id: *post_id,
                filename: filename@,
                content_type: content_type@,
            },
            Event::Document(x0) => EventView::Document(x0.deep_view()),
            Event::PostIds(x0) => EventView::PostIds(x0@),
            Event::Resolved { path, base } => EventView::Resolved {
                path: path.deep_view(),
                base: base.deep_view(),
            },
        }
    }
}

impl DeepView for Event {
    type V = EventView;

    open spec fn deep_view(&self) -> EventView {
        self.view()
    }
}

/// A reply to the client that reports success.
#[derive(Clone, Debug, PartialEq, Eq)]
pub enum Body {
    /// 201: the user was registered.
    SignedUp(SignUpResponse),
    /// 200: the session token belongs to this user.
    LoggedIn(LoginResponse),
    /// 200: a new pair of tokens.
    Session(SessionTokenResponse),
    /// 200: a list of names.
    Files(ResponseFile),
    /// 200: one item.
    Item(ItemResponse),
    /// 200: the bytes of the file at this canonical path, given by its
    /// components.
    File { path: Vec<String> },
}

/// `Body`, as plain values.
pub enum BodyView {
    SignedUp(SignUpResponseView),
    LoggedIn(LoginResponseView),
    Session(SessionTokenResponseView),
    Files(ResponseFileView),
    Item(ItemResponseView),
    File { path: Seq<Seq<char>> },
}

impl View for Body {
    type V = BodyView;

    open spec fn view(&self) -> BodyView {
        match self {
            Body::SignedUp(x0) => BodyView::SignedUp(x0@),
            Body::LoggedIn(x0) => BodyView::LoggedIn(x0@),
            Body::Session(x0) => BodyView::Session(x0@),
            Body::Files(x0) => BodyView::Files(x0@),
            Body::Item(x0) => BodyView::Item(x0@),
            Body::File { path } => BodyView::File {
                path: path.deep_view(),
            },
        }
    }
}

impl DeepView for Body {
    type V = BodyView;

    open spec fn deep_view(&self) -> BodyView {
        self.view()
    }
}

/// What the service is to do next.
#[derive(Clone, Debug, PartialEq, Eq)]
pub enum Action {
    /// Perform this query and come back with the event.
    Ask(Query),
    /// The conversation is over: reply with this.
    Reply(Body),
    /// The conversation is over: report this failure.
    Reject(Failure),
    /// The conversation is over: the credential belongs to this active user.
    Admit(u128),
}

/// `Action`, as plain values.
pub enum ActionView {
    Ask(QueryView),
    Reply(BodyView),
    Reject(Failure),
    Admit(u128),
}

impl View for Action {
    type V = ActionView;

    open spec fn view(&self) -> ActionView {
        match self {
            Action::Ask(x0) => ActionView::Ask(x0@),
            Action::Reply(x0) => ActionView::Reply(x0@),
            Action::Reject(x0) => ActionView::Reject(*x0),
            Action::Admit(x0) => ActionView::Admit(*x0),
        }
    }
}

impl DeepView for Action {
    type V = ActionView;

    open spec fn deep_view(&self) -> ActionView {
        self.view()
    }
}

/// The HTTP status under which a reply that reports success is sent: 201 for
/// a registration, 200 for every other.
pub open spec fn status_of_body(body: BodyView) -> u16 {
    match body {
        BodyView::SignedUp(_) => 201,
        _ => 200,
    }
}

impl Body {
    /// The HTTP status under which this reply is sent.
    pub fn status(&self) -> (code: u16)
        ensures
            code == status_of_body(self@),
    {
        match self {
            Body::SignedUp(_) => 201,
            _ => 200,
        }
    }
}

} // verus!
