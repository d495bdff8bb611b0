//! Whole conversations, run against stores kept in memory.
use mediapub::clock::Timestamp;
use mediapub::errors::{AHError, ErrorKind, Failure};
use mediapub::route::items::{get_all, get_one, open_file, FileState, ItemState, ListState};
use mediapub::route::upload::{upload, Authorization, UploadState};
use mediapub::route::user::login::{
    raw, refresh_token, session_token_login, LoginState, RefreshState, SessionLoginState,
};
use mediapub::route::user::signup::{signup, SignupState};
use mediapub::store::{Action, Body, Event, Query, SessionRow, StoredDocument};
use mediapub::token::hash_token;
use mediapub::types::{
    LoginRequest, LoginSession, Post, RefreshToken, SessionTokenResponse, SignUpRequest,
    UploadFrom, UploadJson, UploadedFile,
};
use mediapub::utility::{check_user_validity_with_pool, CredentialType, ValidityState};
use std::collections::HashMap;

#[derive(Clone, Debug, PartialEq)]
struct User {
    user_id: u128,
    username: String,
    password_hash: String,
    is_active: bool,
}

#[derive(Clone, Debug, PartialEq)]
struct PostRow {
    post_id: u128,
    user_id: u128,
    filename: String,
    content_type: String,
}

/// Stores that are there and do not fail.
#[derive(Clone, Debug, PartialEq)]
struct Memory {
    users: Vec<User>,
    sessions: Vec<(SessionRow, bool)>,
    dev_tokens: Vec<(u128, String, bool)>,
    posts: Vec<PostRow>,
    documents: Vec<(Vec<u8>, Post)>,
    root: Vec<String>,
    files: HashMap<String, Vec<u8>>,
    asked: Vec<Query>,
    fails: fn(&Query) -> bool,
}

fn never(_: &Query) -> bool {
    false
}

fn only<T: Clone>(rows: &[T], wanted: impl Fn(&T) -> bool) -> Option<T> {
    let mut found = rows.iter().filter(|row| wanted(row));
    match (found.next(), found.next()) {
        (Some(row), None) => Some(row.clone()),
        _ => None,
    }
}

impl Memory {
    fn new() -> Memory {
        Memory {
            users: Vec::new(),
            sessions: Vec::new(),
            dev_tokens: Vec::new(),
            posts: Vec::new(),
            documents: Vec::new(),
            root: vec!["/".to_string(), "srv".to_string(), "tmp".to_string()],
            files: HashMap::new(),
            asked: Vec::new(),
            fails: never,
        }
    }

    fn has_user(&self, user_id: u128) -> bool {
        self.users.iter().any(|u| u.user_id == user_id)
    }

    fn serve(&mut self, query: &Query, uploads: &[Vec<u8>]) -> Event {
        self.asked.push(query.clone());
        if (self.fails)(query) {
            return match query {
                Query::Connect | Query::ConnectDocuments => Event::Connected(false),
                _ => Event::Failed,
            };
        }
        match query {
            Query::Connect | Query::ConnectDocuments => Event::Connected(true),
            Query::InsertUser { user_id, username, password_hash } => {
                let taken =
                    self.users.iter().any(|u| u.user_id == *user_id || u.username == *username);
                let length = username.chars().count();
                if taken || length < 3 || length > 255 {
                    return Event::Failed;
                }
                self.users.push(User {
                    user_id: *user_id,
                    username: username.clone(),
                    password_hash: password_hash.clone(),
                    is_active: true,
                });
                Event::UserInserted { user_id: *user_id, username: username.clone() }
            }
            Query::UsernameExists { username } => {
                Event::Exists(self.users.iter().any(|u| u.username == *username))
            }
            Query::FindUser { username } => match only(&self.users, |u| u.username == *username) {
                Some(u) => Event::User {
                    user_id: u.user_id,
                    password_hash: u.password_hash,
                    username: u.username,
                },
                None => Event::Missing,
            },
            Query::InsertSession(row) => {
                let taken = self.sessions.iter().any(|(s, _)| {
                    s.token_id == row.token_id || s.session_token == row.session_token
                });
                if taken || !self.has_user(row.user_id) {
                    return Event::Failed;
                }
                self.sessions.push((row.clone(), false));
                Event::Done
            }
            Query::FindSession { session_token } => {
                match only(&self.sessions, |(s, revoked)| {
                    s.session_token == *session_token && !revoked
                }) {
                    Some((s, _)) => Event::UserId(s.user_id),
                    None => Event::Missing,
                }
            }
            Query::FindRefresh { refresh_token_hash } => {
                match only(&self.sessions, |(s, revoked)| {
                    s.refresh_token_hash == *refresh_token_hash && !revoked
                }) {
                    Some((s, _)) => Event::Session {
                        user_id: s.user_id,
                        refresh_expires_at: s.refresh_expires_at,
                    },
                    None => Event::Missing,
                }
            }
            Query::FindDevToken { token_hash } => {
                match only(&self.dev_tokens, |(_, hash, revoked)| hash == token_hash && !revoked) {
                    Some((user_id, _, _)) => Event::UserId(user_id),
                    None => Event::Missing,
                }
            }
            Query::FindActiveUser { user_id } => Event::Exists(
                only(&self.users, |u| u.user_id == *user_id && u.is_active).is_some(),
            ),
            Query::FindUsername { user_id } => match only(&self.users, |u| u.user_id == *user_id) {
                Some(u) => Event::Username(u.username),
                None => Event::Missing,
            },
            Query::PrepareInsertPost => Event::Done,
            Query::PersistFile { index, name } => {
                let plain = !name.is_empty() && !name.contains('/') && name != "." && name != "..";
                if *index < uploads.len() && plain {
                    self.files.insert(name.clone(), uploads[*index].clone());
                    Event::Done
                } else {
                    Event::Failed
                }
            }
            Query::InsertPost { post_id, user_id, filename, content_type } => {
                if self.posts.iter().any(|p| p.post_id == *post_id) || !self.has_user(*user_id) {
                    return Event::Failed;
                }
                self.posts.push(PostRow {
                    post_id: *post_id,
                    user_id: *user_id,
                    filename: filename.clone(),
                    content_type: content_type.clone(),
                });
                Event::Done
            }
            Query::InsertDocument { key, document } => {
                self.documents.push((key.clone(), document.clone()));
                Event::Done
            }
            Query::FindPost { post_id } => match only(&self.posts, |p| p.post_id == *post_id) {
                Some(p) => Event::PostRow {
                    post_id: p.post_id,
                    filename: p.filename,
                    content_type: p.content_type,
                },
                None => Event::Missing,
            },
            Query::FindDocument { key } => {
                Event::Document(self.documents.iter().find(|(k, _)| k == key).map(|(_, d)| {
                    StoredDocument {
                        title: Some(d.title.clone()),
                        creator: Some(d.creator.clone()),
                        source: Some(d.source.clone()),
                        description: Some(d.description.clone()),
                    }
                }))
            }
            Query::FindAllPosts => Event::PostIds(self.posts.iter().map(|p| p.post_id).collect()),
            Query::Resolve { name } => {
                let path = if self.files.contains_key(name) {
                    let mut path = self.root.clone();
                    path.push(name.clone());
                    Some(path)
                } else {
                    None
                };
                Event::Resolved { path, base: Some(self.root.clone()) }
            }
        }
    }
}

fn run_signup(stores: &mut Memory, request: &SignUpRequest) -> Action {
    let (mut state, mut action) = signup(request, SignupState::Start, Event::Start);
    while let Action::Ask(query) = &action {
        let event = stores.serve(query, &[]);
        let step = signup(request, state, event);
        state = step.0;
        action = step.1;
    }
    action
}

fn run_login(stores: &mut Memory, request: &LoginRequest) -> Action {
    let (mut state, mut action) = raw(request, LoginState::Start, Event::Start);
    while let Action::Ask(query) = &action {
        let event = stores.serve(query, &[]);
        let step = raw(request, state, event);
        state = step.0;
        action = step.1;
    }
    action
}

fn run_session_login(stores: &mut Memory, request: &LoginSession) -> Action {
    let (mut state, mut action) =
        session_token_login(request, SessionLoginState::Start, Event::Start);
    while let Action::Ask(query) = &action {
        let event = stores.serve(query, &[]);
        let step = session_token_login(request, state, event);
        state = step.0;
        action = step.1;
    }
    action
}

fn run_refresh(stores: &mut Memory, request: &RefreshToken) -> Action {
    let (mut state, mut action) = refresh_token(request, RefreshState::Start, Event::Start);
    while let Action::Ask(query) = &action {
        let event = stores.serve(query, &[]);
        let step = refresh_token(request, state, event);
        state = step.0;
        action = step.1;
    }
    action
}

fn run_validity(stores: &mut Memory, credential: &str, class: CredentialType) -> Action {
    let (mut state, mut action) =
        check_user_validity_with_pool(credential, class, ValidityState::Start, Event::Start);
    while let Action::Ask(query) = &action {
        let event = stores.serve(query, &[]);
        let step = check_user_validity_with_pool(credential, class, state, event);
        state = step.0;
        action = step.1;
    }
    action
}

fn run_upload(
    stores: &mut Memory,
    form: &UploadFrom,
    authorization: &Authorization,
    uploads: &[Vec<u8>],
) -> Action {
    let (mut state, mut action) = upload(form, authorization, UploadState::Start, Event::Start);
    while let Action::Ask(query) = &action {
        let event = stores.serve(query, uploads);
        let step = upload(form, authorization, state, event);
        state = step.0;
        action = step.1;
    }
    action
}

fn run_get_one(stores: &mut Memory, item_id: &str) -> Action {
    let (mut state, mut action) = get_one(item_id, ItemState::Start, Event::Start);
    while let Action::Ask(query) = &action {
        let event = stores.serve(query, &[]);
        let step = get_one(item_id, state, event);
        state = step.0;
        action = step.1;
    }
    action
}

fn run_get_all(stores: &mut Memory) -> Action {
    let (mut state, mut action) = get_all(ListState::Start, Event::Start);
    while let Action::Ask(query) = &action {
        let event = stores.serve(query, &[]);
        let step = get_all(state, event);
        state = step.0;
        action = step.1;
    }
    action
}

fn run_open_file(stores: &mut Memory, item: &str) -> Action {
    let (mut state, mut action) = open_file(item, FileState::Start, Event::Start);
    while let Action::Ask(query) = &action {
        let event = stores.serve(query, &[]);
        let step = open_file(item, state, event);
        state = step.0;
        action = step.1;
    }
    action
}

fn alice() -> SignUpRequest {
    SignUpRequest { username: "alice".to_string(), password: "password123".to_string() }
}

fn login(username: &str, password: &str) -> LoginRequest {
    LoginRequest { username: username.to_string(), password: password.to_string() }
}

fn session_of(action: Action) -> SessionTokenResponse {
    match action {
        Action::Reply(Body::Session(session)) => session,
        other => panic!("no session: {:?}", other),
    }
}

fn cat() -> (UploadFrom, Vec<Vec<u8>>) {
    let form = UploadFrom {
        file: vec![UploadedFile {
            file_name: Some("cat.png".to_string()),
            content_type: Some("image/png".to_string()),
        }],
        metadata: vec![UploadJson {
            title: "Cat".to_string(),
            creator: "me".to_string(),
            source: "camera".to_string(),
            description: "a cat".to_string(),
        }],
    };
    (form, vec![vec![0x89, b'P', b'N', b'G']])
}

fn is_uuid_text(text: &str) -> bool {
    text.len() == 36
        && text.chars().enumerate().all(|(i, c)| match i {
            8 | 13 | 18 | 23 => c == '-',
            _ => c.is_ascii_digit() || ('a'..='f').contains(&c),
        })
}

#[test]
fn signup_login_upload_and_get() {
    let mut stores = Memory::new();

    let signed_up = match run_signup(&mut stores, &alice()) {
        Action::Reply(body) => {
            assert_eq!(body.status(), 201);
            match body {
                Body::SignedUp(reply) => reply,
                other => panic!("unexpected body: {:?}", other),
            }
        }
        other => panic!("signup failed: {:?}", other),
    };
    assert_eq!(signed_up.username, "alice");
    assert_eq!(signed_up.message, "User registered successfully");
    assert!(is_uuid_text(&signed_up.user_id));

    let wrong = run_login(&mut stores, &login("alice", "password124"));
    assert_eq!(wrong, Action::Reject(Failure::InvalidCredentials));
    assert_eq!(Failure::InvalidCredentials.status(), 401);
    assert_eq!(Failure::InvalidCredentials.message(), "username or password is invalid.");

    let right = run_login(&mut stores, &login("alice", "password123"));
    match &right {
        Action::Reply(body) => assert_eq!(body.status(), 200),
        other => panic!("login failed: {:?}", other),
    }
    let session = session_of(right);
    assert!(!session.session_token.is_empty());
    assert!(!session.refresh_token.is_empty());
    assert_eq!(session.user_id, signed_up.user_id);
    assert_eq!(session.username, "alice");
    assert_eq!(session.message, "login successfully.");

    let (form, uploads) = cat();
    let authorization = Authorization::Bearer(session.session_token.clone());
    let names = match run_upload(&mut stores, &form, &authorization, &uploads) {
        Action::Reply(body) => {
            assert_eq!(body.status(), 200);
            match body {
                Body::Files(files) => files.file,
                other => panic!("unexpected body: {:?}", other),
            }
        }
        other => panic!("upload failed: {:?}", other),
    };
    assert_eq!(names.len(), 1);
    let (content_id, extension) = names[0].split_at(36);
    assert!(is_uuid_text(content_id));
    assert_eq!(extension, ".png");

    match run_get_one(&mut stores, content_id) {
        Action::Reply(Body::Item(item)) => {
            assert_eq!(item.image, names[0]);
            assert_eq!(item.metadata, form.metadata[0]);
            assert_eq!(item.metadata.title, "Cat");
        }
        other => panic!("get failed: {:?}", other),
    }
}

#[test]
fn login_after_signup_gives_the_same_user() {
    let mut stores = Memory::new();
    let request = SignUpRequest { username: "bob".to_string(), password: "correct horse".to_string() };
    let signed_up = match run_signup(&mut stores, &request) {
        Action::Reply(Body::SignedUp(reply)) => reply,
        other => panic!("signup failed: {:?}", other),
    };
    let session = session_of(run_login(&mut stores, &login("bob", "correct horse")));
    assert_eq!(session.user_id, signed_up.user_id);
    assert_eq!(stores.users.len(), 1);
    assert_eq!(stores.sessions.len(), 1);
    assert_ne!(stores.users[0].password_hash, "correct horse");
}

#[test]
fn second_signup_with_a_taken_name_is_a_conflict() {
    let mut stores = Memory::new();
    assert!(matches!(run_signup(&mut stores, &alice()), Action::Reply(Body::SignedUp(_))));
    assert_eq!(run_signup(&mut stores, &alice()), Action::Reject(Failure::UsernameTaken));
    assert_eq!(Failure::UsernameTaken.status(), 409);
    assert_eq!(stores.users.len(), 1);
}

#[test]
fn signup_with_a_name_of_two_characters_is_not_created() {
    // Four bytes pass the request's check; the store counts two characters.
    let mut stores = Memory::new();
    let request = SignUpRequest { username: "éé".to_string(), password: "password123".to_string() };
    assert_eq!(run_signup(&mut stores, &request), Action::Reject(Failure::UserCreationFailed));
    assert!(stores.users.is_empty());
}

#[test]
fn session_token_is_good_after_login() {
    let mut stores = Memory::new();
    run_signup(&mut stores, &alice());
    let session = session_of(run_login(&mut stores, &login("alice", "password123")));
    let request = LoginSession { session_token: session.session_token.clone() };
    match run_session_login(&mut stores, &request) {
        Action::Reply(Body::LoggedIn(reply)) => {
            assert_eq!(reply.user_id, session.user_id);
            assert_eq!(reply.username, "alice");
            assert_eq!(reply.message, "login successfully.");
        }
        other => panic!("session login failed: {:?}", other),
    }
}

fn stores_with_session(session_expires_at: Timestamp, refresh_expires_at: Timestamp) -> Memory {
    let mut stores = Memory::new();
    stores.users.push(User {
        user_id: 7,
        username: "carol".to_string(),
        password_hash: "x".to_string(),
        is_active: true,
    });
    stores.sessions.push((
        SessionRow {
            token_id: 1,
            user_id: 7,
            session_token: "session-token".to_string(),
            refresh_token_hash: hash_token("refresh-token"),
            session_expires_at,
            refresh_expires_at,
        },
        false,
    ));
    stores
}

const PAST: Timestamp = Timestamp { secs: 1_000_000_000, nanos: 0 };

const FUTURE: Timestamp = Timestamp { secs: 100_000_000_000, nanos: 0 };

#[test]
fn session_token_past_its_expiry_is_still_accepted() {
    let mut stores = stores_with_session(PAST, FUTURE);
    let request = LoginSession { session_token: "session-token".to_string() };
    match run_session_login(&mut stores, &request) {
        Action::Reply(Body::LoggedIn(reply)) => {
            assert_eq!(reply.user_id, "00000000-0000-0000-0000-000000000007");
            assert_eq!(reply.username, "carol");
        }
        other => panic!("session login failed: {:?}", other),
    }
    assert_eq!(
        run_validity(&mut stores, "session-token", CredentialType::SessionToken),
        Action::Admit(7)
    );
}

#[test]
fn revoked_session_token_is_rejected() {
    let mut stores = stores_with_session(FUTURE, FUTURE);
    stores.sessions[0].1 = true;
    let request = LoginSession { session_token: "session-token".to_string() };
    assert_eq!(
        run_session_login(&mut stores, &request),
        Action::Reject(Failure::InvalidSessionToken)
    );
    assert_eq!(Failure::InvalidSessionToken.status(), 401);
    assert_eq!(
        run_validity(&mut stores, "session-token", CredentialType::SessionToken),
        Action::Reject(Failure::Denied(ErrorKind::AuthError(AHError::InvalidCredential)))
    );
}

#[test]
fn expired_refresh_token_is_rejected() {
    let mut stores = stores_with_session(PAST, PAST);
    let before = stores.sessions.clone();
    let request = RefreshToken { refresh_token: "refresh-token".to_string() };
    assert_eq!(run_refresh(&mut stores, &request), Action::Reject(Failure::RefreshTokenExpired));
    assert_eq!(Failure::RefreshTokenExpired.status(), 401);
    assert_eq!(Failure::RefreshTokenExpired.message(), "refresh token has expired.");
    assert_eq!(stores.sessions, before);
}

#[test]
fn unknown_refresh_token_is_rejected() {
    let mut stores = stores_with_session(FUTURE, FUTURE);
    let request = RefreshToken { refresh_token: "another".to_string() };
    assert_eq!(run_refresh(&mut stores, &request), Action::Reject(Failure::InvalidRefreshToken));
}

#[test]
fn rotation_hands_out_new_tokens_and_keeps_the_old_session() {
    let mut stores = stores_with_session(FUTURE, FUTURE);
    let old = stores.sessions[0].clone();
    let request = RefreshToken { refresh_token: "refresh-token".to_string() };
    let session = session_of(run_refresh(&mut stores, &request));
    assert_ne!(session.refresh_token, "refresh-token");
    assert_ne!(session.session_token, "refresh-token");
    assert_ne!(session.session_token, "session-token");
    assert_ne!(session.session_token, session.refresh_token);
    assert_eq!(session.user_id, "00000000-0000-0000-0000-000000000007");
    assert_eq!(session.username, "carol");
    assert_eq!(stores.sessions.len(), 2);
    assert_eq!(stores.sessions[0], old);
    let (row, revoked) = &stores.sessions[1];
    assert!(!revoked);
    assert_eq!(row.user_id, 7);
    assert_eq!(row.session_token, session.session_token);
    assert_eq!(row.refresh_token_hash, hash_token(&session.refresh_token));
    assert_ne!(row.refresh_token_hash, session.refresh_token);

    // The old refresh token is still good, and so is the new one.
    let again = session_of(run_refresh(&mut stores, &request));
    assert_ne!(again.refresh_token, session.refresh_token);
    let next = RefreshToken { refresh_token: session.refresh_token.clone() };
    assert!(matches!(run_refresh(&mut stores, &next), Action::Reply(Body::Session(_))));
}

#[test]
fn mismatched_batch_changes_nothing() {
    let mut stores = stores_with_session(FUTURE, FUTURE);
    let before = stores.clone();
    let (mut form, uploads) = cat();
    form.metadata.clear();
    let authorization = Authorization::Bearer("session-token".to_string());
    assert_eq!(
        run_upload(&mut stores, &form, &authorization, &uploads),
        Action::Reject(Failure::CountMismatch)
    );
    assert_eq!(Failure::CountMismatch.status(), 400);
    assert_eq!(Failure::CountMismatch.message(), "metadata count does not match file count.");
    assert_eq!(stores, before);
    assert!(stores.asked.is_empty());
}

#[test]
fn ingested_item_is_read_back() {
    let mut stores = stores_with_session(FUTURE, FUTURE);
    let (form, uploads) = cat();
    let authorization = Authorization::Bearer("session-token".to_string());
    let names = match run_upload(&mut stores, &form, &authorization, &uploads) {
        Action::Reply(Body::Files(files)) => files.file,
        other => panic!("upload failed: {:?}", other),
    };
    assert_eq!(names.len(), 1);
    let name = names[0].clone();

    assert_eq!(stores.posts.len(), 1);
    assert_eq!(stores.posts[0].user_id, 7);
    assert_eq!(stores.posts[0].filename, name);
    assert_eq!(stores.posts[0].content_type, "image/png");
    assert_eq!(stores.documents.len(), 1);
    assert_eq!(stores.documents[0].0, stores.posts[0].post_id.to_be_bytes().to_vec());
    assert_eq!(stores.documents[0].1.post_id, stores.posts[0].post_id);
    assert_eq!(stores.documents[0].1.uploader, 7);
    assert_eq!(stores.documents[0].1.title, "Cat");

    match run_get_one(&mut stores, &name[..36]) {
        Action::Reply(Body::Item(item)) => {
            assert_eq!(item.image, name);
            assert_eq!(item.metadata, form.metadata[0]);
        }
        other => panic!("get failed: {:?}", other),
    }
    match run_open_file(&mut stores, &name) {
        Action::Reply(Body::File { path }) => {
            assert_eq!(path, vec!["/".to_string(), "srv".to_string(), "tmp".to_string(), name.clone()]);
            assert_eq!(stores.files[&path[3]], uploads[0]);
        }
        other => panic!("file not served: {:?}", other),
    }
    match run_get_all(&mut stores) {
        Action::Reply(Body::Files(files)) => assert_eq!(files.file, vec![name[..36].to_string()]),
        other => panic!("listing failed: {:?}", other),
    }
}

#[test]
fn queries_of_an_item_come_in_order() {
    let mut stores = stores_with_session(FUTURE, FUTURE);
    let (form, uploads) = cat();
    let authorization = Authorization::Bearer("session-token".to_string());
    run_upload(&mut stores, &form, &authorization, &uploads);
    let kinds: Vec<&str> = stores
        .asked
        .iter()
        .map(|query| match query {
            Query::Connect => "connect",
            Query::ConnectDocuments => "connect documents",
            Query::FindSession { .. } => "find session",
            Query::FindActiveUser { .. } => "find active user",
            Query::PrepareInsertPost => "prepare",
            Query::PersistFile { .. } => "persist",
            Query::InsertPost { .. } => "insert post",
            Query::InsertDocument { .. } => "insert document",
            _ => "other",
        })
        .collect();
    assert_eq!(
        kinds,
        vec![
            "connect",
            "find session",
            "find active user",
            "connect documents",
            "connect",
            "prepare",
            "persist",
            "insert post",
            "insert document",
        ]
    );
}

#[test]
fn batch_of_two_stores_both_in_order() {
    let mut stores = stores_with_session(FUTURE, FUTURE);
    let form = UploadFrom {
        file: vec![
            UploadedFile {
                file_name: Some("one.tar.gz".to_string()),
                content_type: Some("application/gzip".to_string()),
            },
            UploadedFile {
                file_name: Some("two.JPG".to_string()),
                content_type: Some("image/jpeg".to_string()),
            },
        ],
        metadata: vec![
            UploadJson {
                title: "One".to_string(),
                creator: String::new(),
                source: String::new(),
                description: String::new(),
            },
            UploadJson {
                title: "Two".to_string(),
                creator: String::new(),
                source: String::new(),
                description: String::new(),
            },
        ],
    };
    let uploads = vec![vec![1u8], vec![2u8, 2u8]];
    let authorization = Authorization::Bearer("session-token".to_string());
    let names = match run_upload(&mut stores, &form, &authorization, &uploads) {
        Action::Reply(Body::Files(files)) => files.file,
        other => panic!("upload failed: {:?}", other),
    };
    assert_eq!(names.len(), 2);
    assert!(names[0].ends_with(".gz"));
    assert!(names[1].ends_with(".JPG"));
    assert_ne!(names[0][..36], names[1][..36]);
    assert_eq!(stores.files[&names[0]], vec![1u8]);
    assert_eq!(stores.files[&names[1]], vec![2u8, 2u8]);
    assert_eq!(stores.documents[0].1.title, "One");
    assert_eq!(stores.documents[1].1.title, "Two");
}

#[test]
fn second_item_without_extension_keeps_the_first() {
    let mut stores = stores_with_session(FUTURE, FUTURE);
    let (mut form, mut uploads) = cat();
    form.file.push(UploadedFile {
        file_name: Some("README".to_string()),
        content_type: Some("text/plain".to_string()),
    });
    form.metadata.push(form.metadata[0].clone());
    uploads.push(vec![9u8]);
    let authorization = Authorization::Bearer("session-token".to_string());
    assert_eq!(
        run_upload(&mut stores, &form, &authorization, &uploads),
        Action::Reject(Failure::MissingExtension)
    );
    assert_eq!(stores.files.len(), 1);
    assert_eq!(stores.posts.len(), 1);
    assert_eq!(stores.documents.len(), 1);
}

#[test]
fn upload_with_suspended_account_is_denied() {
    let mut stores = stores_with_session(FUTURE, FUTURE);
    stores.users[0].is_active = false;
    let (form, uploads) = cat();
    let authorization = Authorization::Bearer("session-token".to_string());
    assert_eq!(
        run_upload(&mut stores, &form, &authorization, &uploads),
        Action::Reject(Failure::Denied(ErrorKind::AuthError(AHError::AccountSuspended)))
    );
    assert!(stores.files.is_empty());
    assert!(stores.posts.is_empty());
}

#[test]
fn dev_token_resolves_to_its_user() {
    let mut stores = stores_with_session(FUTURE, FUTURE);
    stores.dev_tokens.push((7, "dev-token".to_string(), false));
    assert_eq!(run_validity(&mut stores, "dev-token", CredentialType::DevToken), Action::Admit(7));
    assert_eq!(
        run_validity(&mut stores, "dev-token", CredentialType::SessionToken),
        Action::Reject(Failure::Denied(ErrorKind::AuthError(AHError::InvalidCredential)))
    );
    stores.users[0].is_active = false;
    assert_eq!(
        run_validity(&mut stores, "dev-token", CredentialType::DevToken),
        Action::Reject(Failure::Denied(ErrorKind::AuthError(AHError::AccountSuspended)))
    );
}

#[test]
fn traversal_is_rejected_before_anything_is_asked() {
    let mut stores = Memory::new();
    stores.files.insert("passwd".to_string(), vec![1]);
    assert_eq!(
        run_open_file(&mut stores, "../../etc/passwd"),
        Action::Reject(Failure::PathTraversalRejected)
    );
    assert_eq!(run_open_file(&mut stores, "/etc/passwd"), Action::Reject(Failure::PathTraversalRejected));
    assert_eq!(run_open_file(&mut stores, "\\etc"), Action::Reject(Failure::PathTraversalRejected));
    assert_eq!(run_open_file(&mut stores, "a..b"), Action::Reject(Failure::PathTraversalRejected));
    assert!(stores.asked.is_empty());
    assert_eq!(Failure::PathTraversalRejected.status(), 403);
}

#[test]
fn missing_file_is_not_served() {
    let mut stores = Memory::new();
    assert_eq!(run_open_file(&mut stores, "nothing.png"), Action::Reject(Failure::FileUnavailable));
}

#[test]
fn get_of_unknown_id_is_not_found() {
    let mut stores = Memory::new();
    assert_eq!(
        run_get_one(&mut stores, "550e8400-e29b-41d4-a716-446655440000"),
        Action::Reject(Failure::NotFound)
    );
    assert_eq!(Failure::NotFound.status(), 404);
}

#[test]
fn get_of_a_post_without_document_reports_missing_metadata() {
    let mut stores = Memory::new();
    stores.posts.push(PostRow {
        post_id: 0x550e8400e29b41d4a716446655440000,
        user_id: 7,
        filename: "550e8400-e29b-41d4-a716-446655440000.png".to_string(),
        content_type: "image/png".to_string(),
    });
    assert_eq!(
        run_get_one(&mut stores, "550e8400-e29b-41d4-a716-446655440000"),
        Action::Reject(Failure::MetadataMissing)
    );
    assert_eq!(Failure::MetadataMissing.status(), 404);
    assert_eq!(
        Failure::MetadataMissing.message(),
        "the content you are looking for is not found."
    );
}

#[test]
fn listing_gives_every_id_in_store_order() {
    let mut stores = Memory::new();
    for post_id in [3u128, 1, 2] {
        stores.posts.push(PostRow {
            post_id,
            user_id: 7,
            filename: String::new(),
            content_type: String::new(),
        });
    }
    match run_get_all(&mut stores) {
        Action::Reply(Body::Files(files)) => assert_eq!(
            files.file,
            vec![
                "00000000-0000-0000-0000-000000000003".to_string(),
                "00000000-0000-0000-0000-000000000001".to_string(),
                "00000000-0000-0000-0000-000000000002".to_string(),
            ]
        ),
        other => panic!("listing failed: {:?}", other),
    }
}

fn holdings(stores: &Memory) -> (Vec<User>, Vec<(SessionRow, bool)>, Vec<PostRow>, Vec<(Vec<u8>, Post)>, HashMap<String, Vec<u8>>) {
    (
        stores.users.clone(),
        stores.sessions.clone(),
        stores.posts.clone(),
        stores.documents.clone(),
        stores.files.clone(),
    )
}

#[test]
fn lookups_change_nothing() {
    let mut stores = stores_with_session(FUTURE, FUTURE);
    let (form, uploads) = cat();
    let authorization = Authorization::Bearer("session-token".to_string());
    let names = match run_upload(&mut stores, &form, &authorization, &uploads) {
        Action::Reply(Body::Files(files)) => files.file,
        other => panic!("upload failed: {:?}", other),
    };
    let before = holdings(&stores);
    run_get_one(&mut stores, &names[0][..36]);
    run_get_one(&mut stores, "nonsense");
    run_get_all(&mut stores);
    run_open_file(&mut stores, &names[0]);
    run_open_file(&mut stores, "../x");
    run_session_login(&mut stores, &LoginSession { session_token: "session-token".to_string() });
    run_validity(&mut stores, "session-token", CredentialType::SessionToken);
    run_validity(&mut stores, "session-token", CredentialType::DevToken);
    run_login(&mut stores, &login("carol", "wrong password"));
    assert_eq!(holdings(&stores), before);
}

#[test]
fn failed_write_leaves_nothing_behind() {
    let mut stores = stores_with_session(FUTURE, FUTURE);
    stores.fails = |query| matches!(query, Query::PersistFile { .. });
    let (form, uploads) = cat();
    let authorization = Authorization::Bearer("session-token".to_string());
    assert_eq!(
        run_upload(&mut stores, &form, &authorization, &uploads),
        Action::Reject(Failure::StorageWriteFailed)
    );
    assert!(stores.files.is_empty());
    assert!(stores.posts.is_empty());
    assert!(stores.documents.is_empty());
    assert_eq!(Failure::StorageWriteFailed.status(), 500);
}

#[test]
fn failed_row_leaves_the_file_behind() {
    let mut stores = stores_with_session(FUTURE, FUTURE);
    stores.fails = |query| matches!(query, Query::InsertPost { .. });
    let (form, uploads) = cat();
    let authorization = Authorization::Bearer("session-token".to_string());
    assert_eq!(
        run_upload(&mut stores, &form, &authorization, &uploads),
        Action::Reject(Failure::RelationalInsertFailed)
    );
    assert_eq!(stores.files.len(), 1);
    assert!(stores.posts.is_empty());
    assert!(stores.documents.is_empty());
}

#[test]
fn failed_document_leaves_the_row_and_is_reported_on_retrieval() {
    let mut stores = stores_with_session(FUTURE, FUTURE);
    stores.fails = |query| matches!(query, Query::InsertDocument { .. });
    let (form, uploads) = cat();
    let authorization = Authorization::Bearer("session-token".to_string());
    assert_eq!(
        run_upload(&mut stores, &form, &authorization, &uploads),
        Action::Reject(Failure::DocumentInsertFailed)
    );
    assert_eq!(stores.files.len(), 1);
    assert_eq!(stores.posts.len(), 1);
    assert!(stores.documents.is_empty());
    stores.fails = never;
    let name = stores.posts[0].filename.clone();
    assert_eq!(run_get_one(&mut stores, &name[..36]), Action::Reject(Failure::MetadataMissing));
    assert!(matches!(run_open_file(&mut stores, &name), Action::Reply(Body::File { .. })));
}

#[test]
fn unreachable_stores_end_an_upload_before_any_write() {
    let (form, uploads) = cat();
    let authorization = Authorization::Bearer("session-token".to_string());

    let mut stores = stores_with_session(FUTURE, FUTURE);
    stores.fails = |query| matches!(query, Query::ConnectDocuments);
    assert_eq!(
        run_upload(&mut stores, &form, &authorization, &uploads),
        Action::Reject(Failure::DocumentStoreUnavailable)
    );
    assert_eq!(Failure::DocumentStoreUnavailable.status(), 417);

    let mut stores = stores_with_session(FUTURE, FUTURE);
    stores.fails = |query| matches!(query, Query::PrepareInsertPost);
    assert_eq!(
        run_upload(&mut stores, &form, &authorization, &uploads),
        Action::Reject(Failure::PreparationFailed)
    );
    assert!(stores.files.is_empty());

    let mut stores = stores_with_session(FUTURE, FUTURE);
    stores.fails = |query| matches!(query, Query::Connect);
    assert_eq!(
        run_upload(&mut stores, &form, &authorization, &uploads),
        Action::Reject(Failure::Denied(ErrorKind::DatabaseError(
            mediapub::errors::DBError::ConnectionFailed(mediapub::errors::DBType::Postgres)
        )))
    );
    assert_eq!(stores.asked, vec![Query::Connect]);
}

#[test]
fn failed_session_insert_fails_the_login() {
    let mut stores = Memory::new();
    run_signup(&mut stores, &alice());
    stores.fails = |query| matches!(query, Query::InsertSession(_));
    assert_eq!(
        run_login(&mut stores, &login("alice", "password123")),
        Action::Reject(Failure::SessionCreationFailed)
    );
    assert!(stores.sessions.is_empty());
    assert_eq!(Failure::SessionCreationFailed.message(), "failed to create session.");
}
