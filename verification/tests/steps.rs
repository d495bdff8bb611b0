//! Single steps: what each operation does with each answer.
use mediapub::clock::Timestamp;
use mediapub::errors::{AHError, DBError, DBType, ErrorKind, Failure};
use mediapub::route::items::{
    get_all, get_one, open_file, start_retrieval, FileState, ItemState, ListState,
};
use mediapub::route::upload::{start_item, upload, Authorization, Progress, UploadState};
use mediapub::route::user::login::{
    check_verdict, raw, refresh_token, session_token_login, LoginState, RefreshState,
    SessionLoginState,
};
use mediapub::route::user::signup::{insert_user, signup, validate, SignupState};
use mediapub::store::{Action, Body, Event, Query, StoredDocument};
use mediapub::token::hash_token;
use mediapub::types::{
    ItemResponse, LoginRequest, LoginSession, Post, RefreshToken, SessionTokenResponse,
    SignUpRequest, UploadFrom, UploadJson, UploadedFile,
};
use mediapub::utility::{check_user_validity_with_pool, CredentialType, ValidityState};

fn request(username: &str, password: &str) -> SignUpRequest {
    SignUpRequest { username: username.to_string(), password: password.to_string() }
}

fn credentials(username: &str, password: &str) -> LoginRequest {
    LoginRequest { username: username.to_string(), password: password.to_string() }
}

fn metadata(title: &str) -> UploadJson {
    UploadJson {
        title: title.to_string(),
        creator: "creator".to_string(),
        source: "source".to_string(),
        description: "description".to_string(),
    }
}

fn file(name: Option<&str>, content_type: Option<&str>) -> UploadedFile {
    UploadedFile {
        file_name: name.map(|s| s.to_string()),
        content_type: content_type.map(|s| s.to_string()),
    }
}

fn one_file(name: Option<&str>, content_type: Option<&str>) -> UploadFrom {
    UploadFrom { file: vec![file(name, content_type)], metadata: vec![metadata("t")] }
}

fn bearer() -> Authorization {
    Authorization::Bearer("token".to_string())
}

fn progress() -> Progress {
    Progress {
        user_id: 7,
        index: 0,
        post_id: 9,
        new_filename: "00000000-0000-0000-0000-000000000009.png".to_string(),
        content_type: "image/png".to_string(),
        stored: Vec::new(),
    }
}

fn pending() -> SessionTokenResponse {
    SessionTokenResponse {
        user_id: "u".to_string(),
        username: "n".to_string(),
        session_token: "s".to_string(),
        refresh_token: "r".to_string(),
        message: "login successfully.".to_string(),
    }
}

#[test]
fn signup_validates_in_order() {
    assert_eq!(validate(&request("", "password123")), Some(Failure::EmptyCredentials));
    assert_eq!(validate(&request("alice", " \t ")), Some(Failure::EmptyCredentials));
    assert_eq!(validate(&request("  ", "short")), Some(Failure::EmptyCredentials));
    assert_eq!(validate(&request("ab", "password123")), Some(Failure::UsernameLength));
    assert_eq!(validate(&request("ab", "short")), Some(Failure::UsernameLength));
    assert_eq!(validate(&request("abc", "password123")), None);
    assert_eq!(validate(&request(&"a".repeat(255), "password123")), None);
    assert_eq!(validate(&request(&"a".repeat(256), "password123")), Some(Failure::UsernameLength));
    assert_eq!(validate(&request("alice", "1234567")), Some(Failure::PasswordTooShort));
    assert_eq!(validate(&request("alice", "12345678")), None);
    // Lengths are counted in bytes.
    assert_eq!(validate(&request("é", "password123")), Some(Failure::UsernameLength));
    assert_eq!(validate(&request("éé", "password123")), None);
    assert_eq!(validate(&request("alice", "éééé")), None);
}

#[test]
fn signup_rejects_an_invalid_request_at_once() {
    assert_eq!(
        signup(&request("", ""), SignupState::Start, Event::Start),
        (SignupState::Finished, Action::Reject(Failure::EmptyCredentials))
    );
    assert_eq!(
        signup(&request("ab", "password123"), SignupState::Start, Event::Start),
        (SignupState::Finished, Action::Reject(Failure::UsernameLength))
    );
    assert_eq!(
        signup(&request("alice", "short"), SignupState::Start, Event::Start),
        (SignupState::Finished, Action::Reject(Failure::PasswordTooShort))
    );
    assert_eq!(
        signup(&request("alice", "password123"), SignupState::Start, Event::Start),
        (SignupState::Connecting, Action::Ask(Query::Connect))
    );
}

#[test]
fn signup_hashes_the_password_and_draws_an_id() {
    let alice = request("alice", "password123");
    let (state, action) = signup(&alice, SignupState::Connecting, Event::Connected(true));
    assert_eq!(state, SignupState::Inserting);
    let (first_id, first_hash) = match action {
        Action::Ask(Query::InsertUser { user_id, username, password_hash }) => {
            assert_eq!(username, "alice");
            assert_ne!(password_hash, "password123");
            assert_eq!(password_hash.len(), 60);
            assert!(password_hash.starts_with("$2"));
            assert_eq!((user_id >> 76) & 0xf, 4);
            assert_eq!((user_id >> 62) & 0x3, 2);
            (user_id, password_hash)
        }
        other => panic!("no insertion: {:?}", other),
    };
    match signup(&alice, SignupState::Connecting, Event::Connected(true)).1 {
        Action::Ask(Query::InsertUser { user_id, password_hash, .. }) => {
            assert_ne!(user_id, first_id);
            assert_ne!(password_hash, first_hash);
        }
        other => panic!("no insertion: {:?}", other),
    }

    // The hash verifies against the password, and against no other.
    let found = Event::User {
        user_id: first_id,
        password_hash: first_hash.clone(),
        username: "alice".to_string(),
    };
    let (state, action) = raw(&credentials("alice", "password123"), LoginState::Finding, found.clone());
    assert!(matches!(state, LoginState::Storing(_)));
    assert!(matches!(action, Action::Ask(Query::InsertSession(_))));
    assert_eq!(
        raw(&credentials("alice", "Password123"), LoginState::Finding, found),
        (LoginState::Finished, Action::Reject(Failure::InvalidCredentials))
    );
}

#[test]
fn signup_steps() {
    let alice = request("alice", "password123");
    assert_eq!(
        signup(&alice, SignupState::Connecting, Event::Connected(false)),
        (SignupState::Finished, Action::Reject(Failure::SignupConnectionFailed))
    );
    let inserted = Event::UserInserted { user_id: 0x0123456789abcdef0123456789abcdef, username: "alice".to_string() };
    match signup(&alice, SignupState::Inserting, inserted) {
        (SignupState::Finished, Action::Reply(Body::SignedUp(reply))) => {
            assert_eq!(reply.user_id, "01234567-89ab-cdef-0123-456789abcdef");
            assert_eq!(reply.username, "alice");
            assert_eq!(reply.message, "User registered successfully");
        }
        other => panic!("unexpected step: {:?}", other),
    }
    for event in [Event::Failed, Event::Missing] {
        assert_eq!(
            signup(&alice, SignupState::Inserting, event),
            (
                SignupState::Checking,
                Action::Ask(Query::UsernameExists { username: "alice".to_string() })
            )
        );
    }
    assert_eq!(
        signup(&alice, SignupState::Checking, Event::Exists(true)),
        (SignupState::Finished, Action::Reject(Failure::UsernameTaken))
    );
    assert_eq!(
        signup(&alice, SignupState::Checking, Event::Exists(false)),
        (SignupState::Finished, Action::Reject(Failure::UserCreationFailed))
    );
    assert_eq!(
        signup(&alice, SignupState::Checking, Event::Failed),
        (SignupState::Finished, Action::Reject(Failure::SignupQueryFailed))
    );
    assert_eq!(
        signup(&alice, SignupState::Finished, Event::Done),
        (SignupState::Finished, Action::Reject(Failure::UnexpectedEvent))
    );
    assert_eq!(
        signup(&alice, SignupState::Start, Event::Connected(true)),
        (SignupState::Finished, Action::Reject(Failure::UnexpectedEvent))
    );
}

#[test]
fn login_steps() {
    let alice = credentials("alice", "password123");
    assert_eq!(
        raw(&credentials(" ", "password123"), LoginState::Start, Event::Start),
        (LoginState::Finished, Action::Reject(Failure::BlankCredentials))
    );
    assert_eq!(
        raw(&credentials("alice", ""), LoginState::Start, Event::Start),
        (LoginState::Finished, Action::Reject(Failure::BlankCredentials))
    );
    assert_eq!(
        raw(&alice, LoginState::Start, Event::Start),
        (LoginState::Connecting, Action::Ask(Query::Connect))
    );
    assert_eq!(
        raw(&alice, LoginState::Connecting, Event::Connected(false)),
        (LoginState::Finished, Action::Reject(Failure::ConnectionFailed))
    );
    assert_eq!(
        raw(&alice, LoginState::Connecting, Event::Connected(true)),
        (LoginState::Finding, Action::Ask(Query::FindUser { username: "alice".to_string() }))
    );
    for event in [Event::Missing, Event::Failed] {
        assert_eq!(
            raw(&alice, LoginState::Finding, event),
            (LoginState::Finished, Action::Reject(Failure::InvalidCredentials))
        );
    }
    let unreadable = Event::User {
        user_id: 7,
        password_hash: "not a hash".to_string(),
        username: "alice".to_string(),
    };
    assert_eq!(
        raw(&alice, LoginState::Finding, unreadable),
        (LoginState::Finished, Action::Reject(Failure::PasswordVerificationFailed))
    );
    assert_eq!(
        raw(&alice, LoginState::Storing(pending()), Event::Done),
        (LoginState::Finished, Action::Reply(Body::Session(pending())))
    );
    assert_eq!(
        raw(&alice, LoginState::Storing(pending()), Event::Failed),
        (LoginState::Finished, Action::Reject(Failure::SessionCreationFailed))
    );
    assert_eq!(
        raw(&alice, LoginState::Finished, Event::Start),
        (LoginState::Finished, Action::Reject(Failure::UnexpectedEvent))
    );
}

#[test]
fn login_accepts_a_hash_made_elsewhere() {
    // bcrypt of "password" at cost 4.
    let hash = "$2a$04$UuTkLRZZ6QofpDOlMz32MuuxEHA43WOemOYHPz6.SjsVsyO1tDU96";
    let found = Event::User { user_id: 7, password_hash: hash.to_string(), username: "dave".to_string() };
    match raw(&credentials("dave", "password"), LoginState::Finding, found.clone()) {
        (LoginState::Storing(reply), Action::Ask(Query::InsertSession(row))) => {
            assert_eq!(reply.user_id, "00000000-0000-0000-0000-000000000007");
            assert_eq!(reply.username, "dave");
            assert_eq!(reply.message, "login successfully.");
            assert_eq!(row.user_id, 7);
            assert_eq!(row.session_token, reply.session_token);
            assert_eq!(row.refresh_token_hash, hash_token(&reply.refresh_token));
        }
        other => panic!("unexpected step: {:?}", other),
    }
    assert_eq!(
        raw(&credentials("dave", "passwore"), LoginState::Finding, found),
        (LoginState::Finished, Action::Reject(Failure::InvalidCredentials))
    );
}

#[test]
fn session_login_steps() {
    let request = LoginSession { session_token: "token".to_string() };
    assert_eq!(
        session_token_login(
            &LoginSession { session_token: "\n".to_string() },
            SessionLoginState::Start,
            Event::Start
        ),
        (SessionLoginState::Finished, Action::Reject(Failure::BlankSessionToken))
    );
    assert_eq!(
        session_token_login(&request, SessionLoginState::Start, Event::Start),
        (SessionLoginState::Connecting, Action::Ask(Query::Connect))
    );
    assert_eq!(
        session_token_login(&request, SessionLoginState::Connecting, Event::Connected(false)),
        (SessionLoginState::Finished, Action::Reject(Failure::ConnectionFailed))
    );
    assert_eq!(
        session_token_login(&request, SessionLoginState::Connecting, Event::Connected(true)),
        (
            SessionLoginState::FindingSession,
            Action::Ask(Query::FindSession { session_token: "token".to_string() })
        )
    );
    assert_eq!(
        session_token_login(&request, SessionLoginState::FindingSession, Event::UserId(7)),
        (SessionLoginState::FindingUser(7), Action::Ask(Query::FindUsername { user_id: 7 }))
    );
    for event in [Event::Missing, Event::Failed] {
        assert_eq!(
            session_token_login(&request, SessionLoginState::FindingSession, event.clone()),
            (SessionLoginState::Finished, Action::Reject(Failure::InvalidSessionToken))
        );
        assert_eq!(
            session_token_login(&request, SessionLoginState::FindingUser(7), event),
            (SessionLoginState::Finished, Action::Reject(Failure::QueryFailed))
        );
    }
    assert_eq!(
        session_token_login(&request, SessionLoginState::Finished, Event::UserId(7)),
        (SessionLoginState::Finished, Action::Reject(Failure::UnexpectedEvent))
    );
}

#[test]
fn refresh_steps() {
    let request = RefreshToken { refresh_token: "abc".to_string() };
    assert_eq!(
        refresh_token(&RefreshToken { refresh_token: String::new() }, RefreshState::Start, Event::Start),
        (RefreshState::Finished, Action::Reject(Failure::BlankRefreshToken))
    );
    assert_eq!(
        refresh_token(&request, RefreshState::Start, Event::Start),
        (RefreshState::Connecting, Action::Ask(Query::Connect))
    );
    assert_eq!(
        refresh_token(&request, RefreshState::Connecting, Event::Connected(false)),
        (RefreshState::Finished, Action::Reject(Failure::ConnectionFailed))
    );
    assert_eq!(
        refresh_token(&request, RefreshState::Connecting, Event::Connected(true)),
        (
            RefreshState::FindingSession,
            Action::Ask(Query::FindRefresh {
                refresh_token_hash:
                    "ba7816bf8f01cfea414140de5dae2223b00361a396177a9cb410ff61f20015ad".to_string()
            })
        )
    );
    for event in [Event::Missing, Event::Failed] {
        assert_eq!(
            refresh_token(&request, RefreshState::FindingSession, event.clone()),
            (RefreshState::Finished, Action::Reject(Failure::InvalidRefreshToken))
        );
        assert_eq!(
            refresh_token(&request, RefreshState::FindingUser(7), event),
            (RefreshState::Finished, Action::Reject(Failure::QueryFailed))
        );
    }
    let expired = Event::Session { user_id: 7, refresh_expires_at: Timestamp { secs: 0, nanos: 0 } };
    assert_eq!(
        refresh_token(&request, RefreshState::FindingSession, expired),
        (RefreshState::Finished, Action::Reject(Failure::RefreshTokenExpired))
    );
    let good = Event::Session {
        user_id: 7,
        refresh_expires_at: Timestamp { secs: 100_000_000_000, nanos: 0 },
    };
    assert_eq!(
        refresh_token(&request, RefreshState::FindingSession, good),
        (RefreshState::FindingUser(7), Action::Ask(Query::FindUsername { user_id: 7 }))
    );
    match refresh_token(&request, RefreshState::FindingUser(7), Event::Username("carol".to_string())) {
        (RefreshState::Storing(reply), Action::Ask(Query::InsertSession(row))) => {
            assert_eq!(reply.username, "carol");
            assert_eq!(reply.user_id, "00000000-0000-0000-0000-000000000007");
            assert_ne!(reply.refresh_token, "abc");
            assert_eq!(row.user_id, 7);
        }
        other => panic!("unexpected step: {:?}", other),
    }
    assert_eq!(
        refresh_token(&request, RefreshState::Storing(pending()), Event::Done),
        (RefreshState::Finished, Action::Reply(Body::Session(pending())))
    );
    assert_eq!(
        refresh_token(&request, RefreshState::Storing(pending()), Event::Failed),
        (RefreshState::Finished, Action::Reject(Failure::SessionCreationFailed))
    );
    assert_eq!(
        refresh_token(&request, RefreshState::Finished, Event::Done),
        (RefreshState::Finished, Action::Reject(Failure::UnexpectedEvent))
    );
}

#[test]
fn validity_steps() {
    let step = |class, state, event| check_user_validity_with_pool("secret", class, state, event);
    let denied = |kind| Action::Reject(Failure::Denied(kind));
    for class in [CredentialType::SessionToken, CredentialType::DevToken] {
        assert_eq!(
            step(class, ValidityState::Start, Event::Start),
            (ValidityState::Connecting, Action::Ask(Query::Connect))
        );
        assert_eq!(
            step(class, ValidityState::Connecting, Event::Connected(false)),
            (
                ValidityState::Finished,
                denied(ErrorKind::DatabaseError(DBError::ConnectionFailed(DBType::Postgres)))
            )
        );
        assert_eq!(
            step(class, ValidityState::Finding, Event::UserId(7)),
            (ValidityState::Checking(7), Action::Ask(Query::FindActiveUser { user_id: 7 }))
        );
        assert_eq!(
            step(class, ValidityState::Finding, Event::Missing),
            (ValidityState::Finished, denied(ErrorKind::AuthError(AHError::InvalidCredential)))
        );
        assert_eq!(
            step(class, ValidityState::Finding, Event::Failed),
            (
                ValidityState::Finished,
                denied(ErrorKind::DatabaseError(DBError::QueryFailed(DBType::Postgres)))
            )
        );
        assert_eq!(
            step(class, ValidityState::Checking(7), Event::Exists(true)),
            (ValidityState::Finished, Action::Admit(7))
        );
        for event in [Event::Exists(false), Event::Missing] {
            assert_eq!(
                step(class, ValidityState::Checking(7), event),
                (ValidityState::Finished, denied(ErrorKind::AuthError(AHError::AccountSuspended)))
            );
        }
        assert_eq!(
            step(class, ValidityState::Checking(7), Event::Failed),
            (
                ValidityState::Finished,
                denied(ErrorKind::DatabaseError(DBError::QueryFailed(DBType::Postgres)))
            )
        );
        assert_eq!(
            step(class, ValidityState::Finished, Event::Exists(true)),
            (ValidityState::Finished, Action::Reject(Failure::UnexpectedEvent))
        );
    }
    assert_eq!(
        step(CredentialType::SessionToken, ValidityState::Connecting, Event::Connected(true)),
        (
            ValidityState::Finding,
            Action::Ask(Query::FindSession { session_token: "secret".to_string() })
        )
    );
    assert_eq!(
        step(CredentialType::DevToken, ValidityState::Connecting, Event::Connected(true)),
        (ValidityState::Finding, Action::Ask(Query::FindDevToken { token_hash: "secret".to_string() }))
    );
}

#[test]
fn upload_checks_the_request_before_it_asks() {
    let form = one_file(Some("cat.png"), Some("image/png"));
    let mismatched = UploadFrom { file: form.file.clone(), metadata: Vec::new() };
    for authorization in [Authorization::Missing, Authorization::Malformed, bearer()] {
        assert_eq!(
            upload(&mismatched, &authorization, UploadState::Start, Event::Start),
            (UploadState::Finished, Action::Reject(Failure::CountMismatch))
        );
    }
    let more_metadata =
        UploadFrom { file: Vec::new(), metadata: vec![metadata("a")] };
    assert_eq!(
        upload(&more_metadata, &bearer(), UploadState::Start, Event::Start),
        (UploadState::Finished, Action::Reject(Failure::CountMismatch))
    );
    assert_eq!(
        upload(&form, &Authorization::Missing, UploadState::Start, Event::Start),
        (UploadState::Finished, Action::Reject(Failure::AuthorizationMissing))
    );
    assert_eq!(
        upload(&form, &Authorization::Malformed, UploadState::Start, Event::Start),
        (UploadState::Finished, Action::Reject(Failure::AuthorizationMalformed))
    );
    assert_eq!(
        upload(&form, &bearer(), UploadState::Start, Event::Start),
        (UploadState::Authorizing(ValidityState::Connecting), Action::Ask(Query::Connect))
    );
}

#[test]
fn upload_resolves_the_credential_as_a_session_token() {
    let form = one_file(Some("cat.png"), Some("image/png"));
    assert_eq!(
        upload(
            &form,
            &bearer(),
            UploadState::Authorizing(ValidityState::Connecting),
            Event::Connected(true)
        ),
        (
            UploadState::Authorizing(ValidityState::Finding),
            Action::Ask(Query::FindSession { session_token: "token".to_string() })
        )
    );
    assert_eq!(
        upload(&form, &bearer(), UploadState::Authorizing(ValidityState::Finding), Event::UserId(7)),
        (
            UploadState::Authorizing(ValidityState::Checking(7)),
            Action::Ask(Query::FindActiveUser { user_id: 7 })
        )
    );
    assert_eq!(
        upload(
            &form,
            &bearer(),
            UploadState::Authorizing(ValidityState::Checking(7)),
            Event::Exists(true)
        ),
        (UploadState::ConnectingDocuments { user_id: 7 }, Action::Ask(Query::ConnectDocuments))
    );
    assert_eq!(
        upload(
            &form,
            &bearer(),
            UploadState::Authorizing(ValidityState::Connecting),
            Event::Connected(false)
        ),
        (
            UploadState::Finished,
            Action::Reject(Failure::Denied(ErrorKind::DatabaseError(DBError::ConnectionFailed(
                DBType::Postgres
            ))))
        )
    );
    assert_eq!(
        upload(&form, &bearer(), UploadState::Authorizing(ValidityState::Finding), Event::Missing),
        (
            UploadState::Finished,
            Action::Reject(Failure::Denied(ErrorKind::AuthError(AHError::InvalidCredential)))
        )
    );
    assert_eq!(
        upload(
            &form,
            &Authorization::Missing,
            UploadState::Authorizing(ValidityState::Finding),
            Event::UserId(7)
        ),
        (UploadState::Finished, Action::Reject(Failure::UnexpectedEvent))
    );
}

#[test]
fn upload_reaches_the_stores_in_turn() {
    let form = one_file(Some("cat.png"), Some("image/png"));
    assert_eq!(
        upload(&form, &bearer(), UploadState::ConnectingDocuments { user_id: 7 }, Event::Connected(false)),
        (UploadState::Finished, Action::Reject(Failure::DocumentStoreUnavailable))
    );
    assert_eq!(
        upload(&form, &bearer(), UploadState::ConnectingDocuments { user_id: 7 }, Event::Connected(true)),
        (UploadState::Connecting { user_id: 7 }, Action::Ask(Query::Connect))
    );
    assert_eq!(
        upload(&form, &bearer(), UploadState::Connecting { user_id: 7 }, Event::Connected(false)),
        (UploadState::Finished, Action::Reject(Failure::RelationalStoreUnavailable))
    );
    assert_eq!(
        upload(&form, &bearer(), UploadState::Connecting { user_id: 7 }, Event::Connected(true)),
        (UploadState::Preparing { user_id: 7 }, Action::Ask(Query::PrepareInsertPost))
    );
    assert_eq!(
        upload(&form, &bearer(), UploadState::Preparing { user_id: 7 }, Event::Failed),
        (UploadState::Finished, Action::Reject(Failure::PreparationFailed))
    );
    match upload(&form, &bearer(), UploadState::Preparing { user_id: 7 }, Event::Done) {
        (UploadState::Persisting(p), Action::Ask(Query::PersistFile { index, name })) => {
            assert_eq!(index, 0);
            assert_eq!(p.index, 0);
            assert_eq!(p.user_id, 7);
            assert_eq!(p.new_filename, name);
            assert_eq!(p.content_type, "image/png");
            assert!(p.stored.is_empty());
            assert_eq!(name.len(), 40);
            assert!(name.ends_with(".png"));
            assert_eq!((p.post_id >> 76) & 0xf, 4);
        }
        other => panic!("unexpected step: {:?}", other),
    }
}

#[test]
fn upload_takes_an_item_through_file_row_and_document() {
    let form = one_file(Some("cat.png"), Some("image/png"));
    assert_eq!(
        upload(&form, &bearer(), UploadState::Persisting(progress()), Event::Failed),
        (UploadState::Finished, Action::Reject(Failure::StorageWriteFailed))
    );
    assert_eq!(
        upload(&form, &bearer(), UploadState::Persisting(progress()), Event::Done),
        (
            UploadState::InsertingPost(progress()),
            Action::Ask(Query::InsertPost {
                post_id: 9,
                user_id: 7,
                filename: "00000000-0000-0000-0000-000000000009.png".to_string(),
                content_type: "image/png".to_string(),
            })
        )
    );
    assert_eq!(
        upload(&form, &bearer(), UploadState::InsertingPost(progress()), Event::Failed),
        (UploadState::Finished, Action::Reject(Failure::RelationalInsertFailed))
    );
    assert_eq!(
        upload(&form, &bearer(), UploadState::InsertingPost(progress()), Event::Done),
        (
            UploadState::InsertingDocument(progress()),
            Action::Ask(Query::InsertDocument {
                key: vec![0, 0, 0, 0, 0, 0, 0, 0, 0, 0, 0, 0, 0, 0, 0, 9],
                document: Post {
                    post_id: 9,
                    title: "t".to_string(),
                    creator: "creator".to_string(),
                    source: "source".to_string(),
                    description: "description".to_string(),
                    uploader: 7,
                },
            })
        )
    );
    assert_eq!(
        upload(&form, &bearer(), UploadState::InsertingDocument(progress()), Event::Failed),
        (UploadState::Finished, Action::Reject(Failure::DocumentInsertFailed))
    );
    match upload(&form, &bearer(), UploadState::InsertingDocument(progress()), Event::Done) {
        (UploadState::Finished, Action::Reply(Body::Files(files))) => {
            assert_eq!(files.file, vec!["00000000-0000-0000-0000-000000000009.png".to_string()]);
        }
        other => panic!("unexpected step: {:?}", other),
    }
    assert_eq!(
        upload(&form, &bearer(), UploadState::Finished, Event::Done),
        (UploadState::Finished, Action::Reject(Failure::UnexpectedEvent))
    );
}

#[test]
fn item_starts_under_its_stored_name() {
    let form = one_file(Some("holiday.photo.JPEG"), Some("image/jpeg"));
    let stored = vec!["earlier.png".to_string()];
    let post_id = 0x550e8400e29b41d4a716446655440000u128;
    let (state, action) = start_item(&form, 7, 0, stored.clone(), post_id);
    let name = "550e8400-e29b-41d4-a716-446655440000.JPEG".to_string();
    assert_eq!(action, Action::Ask(Query::PersistFile { index: 0, name: name.clone() }));
    assert_eq!(
        state,
        UploadState::Persisting(Progress {
            user_id: 7,
            index: 0,
            post_id,
            new_filename: name,
            content_type: "image/jpeg".to_string(),
            stored: stored.clone(),
        })
    );
    // Past the last item the batch is complete.
    assert_eq!(
        start_item(&form, 7, 1, stored.clone(), post_id),
        (UploadState::Finished, Action::Reply(Body::Files(mediapub::types::ResponseFile { file: stored })))
    );
}

#[test]
fn item_without_type_name_or_extension_ends_the_batch() {
    let rejected = |form: &UploadFrom| start_item(form, 7, 0, Vec::new(), 9);
    assert_eq!(
        rejected(&one_file(Some("cat.png"), None)),
        (UploadState::Finished, Action::Reject(Failure::ContentTypeMissing))
    );
    assert_eq!(
        rejected(&one_file(None, None)),
        (UploadState::Finished, Action::Reject(Failure::ContentTypeMissing))
    );
    assert_eq!(
        rejected(&one_file(None, Some("image/png"))),
        (UploadState::Finished, Action::Reject(Failure::FilenameMissing))
    );
    for name in ["cat", "cat.", "", "."] {
        assert_eq!(
            rejected(&one_file(Some(name), Some("image/png"))),
            (UploadState::Finished, Action::Reject(Failure::MissingExtension))
        );
    }
    assert_eq!(Failure::MissingExtension.status(), 400);
}

#[test]
fn get_one_steps() {
    let id = "550e8400-e29b-41d4-a716-446655440000";
    let post_id = 0x550e8400e29b41d4a716446655440000u128;
    assert_eq!(
        get_one(id, ItemState::Start, Event::Start),
        (ItemState::Connecting(post_id), Action::Ask(Query::Connect))
    );
    for text in [
        "550E8400-E29B-41D4-A716-446655440000",
        "550e8400e29b41d4a716446655440000",
        "{550e8400-e29b-41d4-a716-446655440000}",
        "urn:uuid:550e8400-e29b-41d4-a716-446655440000",
    ] {
        assert_eq!(
            get_one(text, ItemState::Start, Event::Start),
            (ItemState::Connecting(post_id), Action::Ask(Query::Connect))
        );
    }
    for text in ["", "cat", "550e8400-e29b-41d4-a716-44665544000", "550e8400-e29b-41d4-a716-44665544000g"] {
        assert_eq!(
            get_one(text, ItemState::Start, Event::Start),
            (ItemState::Finished, Action::Reject(Failure::InvalidIdentifier))
        );
    }
    assert_eq!(Failure::InvalidIdentifier.status(), 400);
    assert_eq!(
        get_one(id, ItemState::Connecting(post_id), Event::Connected(false)),
        (ItemState::Finished, Action::Reject(Failure::StoreUnavailable))
    );
    assert_eq!(
        get_one(id, ItemState::Connecting(post_id), Event::Connected(true)),
        (ItemState::FindingPost(post_id), Action::Ask(Query::FindPost { post_id }))
    );
    for event in [Event::Missing, Event::Failed] {
        assert_eq!(
            get_one(id, ItemState::FindingPost(post_id), event),
            (ItemState::Finished, Action::Reject(Failure::NotFound))
        );
    }
    let row = Event::PostRow {
        post_id,
        filename: "stored.png".to_string(),
        content_type: "image/png".to_string(),
    };
    assert_eq!(
        get_one(id, ItemState::FindingPost(post_id), row),
        (
            ItemState::FindingDocument { filename: "stored.png".to_string() },
            Action::Ask(Query::FindDocument {
                key: vec![
                    0x55, 0x0e, 0x84, 0x00, 0xe2, 0x9b, 0x41, 0xd4, 0xa7, 0x16, 0x44, 0x66, 0x55,
                    0x44, 0x00, 0x00
                ]
            })
        )
    );
    let finding = || ItemState::FindingDocument { filename: "stored.png".to_string() };
    let document = StoredDocument {
        title: Some("Cat".to_string()),
        creator: None,
        source: Some(String::new()),
        description: None,
    };
    assert_eq!(
        get_one(id, finding(), Event::Document(Some(document))),
        (
            ItemState::Finished,
            Action::Reply(Body::Item(ItemResponse {
                image: "stored.png".to_string(),
                metadata: UploadJson {
                    title: "Cat".to_string(),
                    creator: String::new(),
                    source: String::new(),
                    description: String::new(),
                },
            }))
        )
    );
    assert_eq!(
        get_one(id, finding(), Event::Document(None)),
        (ItemState::Finished, Action::Reject(Failure::MetadataMissing))
    );
    assert_eq!(
        get_one(id, finding(), Event::Failed),
        (ItemState::Finished, Action::Reject(Failure::DocumentQueryFailed))
    );
    assert_eq!(Failure::DocumentQueryFailed.status(), 500);
    assert_eq!(
        get_one(id, ItemState::Finished, Event::Start),
        (ItemState::Finished, Action::Reject(Failure::UnexpectedEvent))
    );
}

#[test]
fn get_all_steps() {
    assert_eq!(
        get_all(ListState::Start, Event::Start),
        (ListState::Connecting, Action::Ask(Query::Connect))
    );
    assert_eq!(
        get_all(ListState::Connecting, Event::Connected(false)),
        (ListState::Finished, Action::Reject(Failure::StoreUnavailable))
    );
    assert_eq!(
        get_all(ListState::Connecting, Event::Connected(true)),
        (ListState::Listing, Action::Ask(Query::FindAllPosts))
    );
    assert_eq!(
        get_all(ListState::Listing, Event::Failed),
        (ListState::Finished, Action::Reject(Failure::ListingFailed))
    );
    match get_all(ListState::Listing, Event::PostIds(Vec::new())) {
        (ListState::Finished, Action::Reply(Body::Files(files))) => assert!(files.file.is_empty()),
        other => panic!("unexpected step: {:?}", other),
    }
    match get_all(ListState::Listing, Event::PostIds(vec![u128::MAX, 0])) {
        (ListState::Finished, Action::Reply(Body::Files(files))) => assert_eq!(
            files.file,
            vec![
                "ffffffff-ffff-ffff-ffff-ffffffffffff".to_string(),
                "00000000-0000-0000-0000-000000000000".to_string(),
            ]
        ),
        other => panic!("unexpected step: {:?}", other),
    }
    assert_eq!(
        get_all(ListState::Finished, Event::Start),
        (ListState::Finished, Action::Reject(Failure::UnexpectedEvent))
    );
}

fn components(path: &[&str]) -> Vec<String> {
    path.iter().map(|c| c.to_string()).collect()
}

#[test]
fn open_file_steps() {
    for item in ["../../etc/passwd", "/etc/passwd", "\\windows", "a/../b", "..", "x..", "a/b..c"] {
        assert_eq!(
            open_file(item, FileState::Start, Event::Start),
            (FileState::Finished, Action::Reject(Failure::PathTraversalRejected))
        );
    }
    assert_eq!(
        open_file("cat.png", FileState::Start, Event::Start),
        (FileState::Resolving, Action::Ask(Query::Resolve { name: "cat.png".to_string() }))
    );
    assert_eq!(
        open_file("a/b.png", FileState::Start, Event::Start),
        (FileState::Resolving, Action::Ask(Query::Resolve { name: "a/b.png".to_string() }))
    );
    let resolved = |path: Option<&[&str]>, base: Option<&[&str]>| Event::Resolved {
        path: path.map(components),
        base: base.map(components),
    };
    let root: &[&str] = &["/", "srv", "tmp"];
    assert_eq!(
        open_file("cat.png", FileState::Resolving, resolved(Some(&["/", "srv", "tmp", "cat.png"]), Some(root))),
        (
            FileState::Finished,
            Action::Reply(Body::File { path: components(&["/", "srv", "tmp", "cat.png"]) })
        )
    );
    // A link in the storage root that leads out of it.
    assert_eq!(
        open_file("link", FileState::Resolving, resolved(Some(&["/", "etc", "passwd"]), Some(root))),
        (FileState::Finished, Action::Reject(Failure::PathEscapesRoot))
    );
    // Components are compared whole: /srv/tmpfiles is not below /srv/tmp.
    assert_eq!(
        open_file("x", FileState::Resolving, resolved(Some(&["/", "srv", "tmpfiles", "x"]), Some(root))),
        (FileState::Finished, Action::Reject(Failure::PathEscapesRoot))
    );
    assert_eq!(
        open_file("x", FileState::Resolving, resolved(Some(&["/", "srv"]), Some(root))),
        (FileState::Finished, Action::Reject(Failure::PathEscapesRoot))
    );
    assert_eq!(Failure::PathEscapesRoot.status(), 403);
    assert_eq!(
        open_file("x", FileState::Resolving, resolved(None, Some(root))),
        (FileState::Finished, Action::Reject(Failure::FileUnavailable))
    );
    assert_eq!(
        open_file("x", FileState::Resolving, resolved(None, None)),
        (FileState::Finished, Action::Reject(Failure::FileUnavailable))
    );
    assert_eq!(
        open_file("x", FileState::Resolving, resolved(Some(&["/", "srv", "tmp", "x"]), None)),
        (FileState::Finished, Action::Reject(Failure::BaseDirectoryMissing))
    );
    assert_eq!(
        open_file("x", FileState::Resolving, Event::Failed),
        (FileState::Finished, Action::Reject(Failure::FileUnavailable))
    );
    assert_eq!(
        open_file("x", FileState::Finished, Event::Start),
        (FileState::Finished, Action::Reject(Failure::UnexpectedEvent))
    );
}

#[test]
fn verdict_on_the_password_decides_the_login() {
    assert_eq!(check_verdict(Some(true)), None);
    assert_eq!(check_verdict(Some(false)), Some(Failure::InvalidCredentials));
    assert_eq!(check_verdict(None), Some(Failure::PasswordVerificationFailed));
}

#[test]
fn retrieval_starts_with_a_well_formed_id_only() {
    assert_eq!(
        start_retrieval(Some(5)),
        (ItemState::Connecting(5), Action::Ask(Query::Connect))
    );
    assert_eq!(
        start_retrieval(None),
        (ItemState::Finished, Action::Reject(Failure::InvalidIdentifier))
    );
}

#[test]
fn user_is_inserted_under_the_request_name() {
    assert_eq!(
        insert_user(&request("alice", "password123"), 11, "hash".to_string()),
        (
            SignupState::Inserting,
            Action::Ask(Query::InsertUser {
                user_id: 11,
                username: "alice".to_string(),
                password_hash: "hash".to_string(),
            })
        )
    );
}
