//! What can go wrong, and how each failure is reported to the client.
use crate::types::ErrorResponse;
use vstd::prelude::*;

verus! {

/// The store a database error came from.
#[derive(Clone, Copy, Debug, PartialEq, Eq, Structural)]
pub enum DBType {
    Postgres,
    Mongo,
}

/// A store-level failure: no connection was to be had, or a statement failed.
#[derive(Clone, Copy, Debug, PartialEq, Eq, Structural)]
pub enum DBError {
    ConnectionFailed(DBType),
    QueryFailed(DBType),
}

/// A credential was understood and turned down.
#[derive(Clone, Copy, Debug, PartialEq, Eq, Structural)]
pub enum AHError {
    InvalidCredential,
    UserInactive,
    AccountSuspended,
}

/// Why a bearer credential did not resolve to a user: "reject the request"
/// (`AuthError`) is kept apart from "try again" (`DatabaseError`).
#[derive(Clone, Copy, Debug, PartialEq, Eq, Structural)]
pub enum ErrorKind {
    AuthError(AHError),
    DatabaseError(DBError),
}

/// Every failure that an operation of this crate reports to the client.
#[derive(Clone, Copy, Debug, PartialEq, Eq, Structural)]
pub enum Failure {
    /// Signup: the username or the password is blank.
    EmptyCredentials,
    /// Signup: the username is shorter than 3 or longer than 255 bytes.
    UsernameLength,
    /// Signup: the password is shorter than 8 bytes.
    PasswordTooShort,
    /// Signup: the relational store gave no connection.
    SignupConnectionFailed,
    /// Signup: the password could not be hashed.
    PasswordHashingFailed,
    /// Signup: a user of that name exists already.
    UsernameTaken,
    /// Signup: the user was not inserted, and whether the name is taken could
    /// not be found out.
    SignupQueryFailed,
    /// Signup: the user was not inserted although the name is free.
    UserCreationFailed,
    /// Login: the username or the password is blank.
    BlankCredentials,
    /// Login, session login, refresh: the relational store gave no connection.
    ConnectionFailed,
    /// Login: no such user, or the password is not the user's.
    InvalidCredentials,
    /// Login: the stored password hash could not be checked.
    PasswordVerificationFailed,
    /// The new session row was not inserted.
    SessionCreationFailed,
    /// Session login: the session token is blank.
    BlankSessionToken,
    /// Session login: no session that is not revoked has this token.
    InvalidSessionToken,
    /// Session login, refresh: the user's name could not be read.
    QueryFailed,
    /// Refresh: the refresh token is blank.
    BlankRefreshToken,
    /// Refresh: no session that is not revoked has this refresh token.
    InvalidRefreshToken,
    /// Refresh: the refresh token's expiry lies before now.
    RefreshTokenExpired,
    /// Upload: there are not as many metadata entries as files.
    CountMismatch,
    /// Upload: the request carries no bearer credential.
    AuthorizationMissing,
    /// Upload: the bearer credential is not text.
    AuthorizationMalformed,
    /// The bearer credential did not resolve to an active user.
    Denied(ErrorKind),
    /// Upload: the document store could not be reached.
    DocumentStoreUnavailable,
    /// Upload: the relational store gave no connection.
    RelationalStoreUnavailable,
    /// Upload: the insert statement could not be prepared.
    PreparationFailed,
    /// Upload: a file came without a content type.
    ContentTypeMissing,
    /// Upload: a file came without a name.
    FilenameMissing,
    /// Upload: a file's name has no extension.
    MissingExtension,
    /// Upload: the file's bytes could not be written to storage.
    StorageWriteFailed,
    /// Upload: the post row was not inserted.
    RelationalInsertFailed,
    /// Upload: the post document was not inserted.
    DocumentInsertFailed,
    /// Retrieval: the content id is no well-formed identifier.
    InvalidIdentifier,
    /// Retrieval: the relational store gave no connection.
    StoreUnavailable,
    /// Retrieval: there is no post row with this content id.
    NotFound,
    /// Retrieval: the document store failed while looking for the document.
    DocumentQueryFailed,
    /// Retrieval: the post row exists and its document does not.
    MetadataMissing,
    /// Listing: the post rows could not be read.
    ListingFailed,
    /// Raw file: the requested path is absolute or has a parent-directory
    /// segment.
    PathTraversalRejected,
    /// Raw file: the storage root does not resolve.
    BaseDirectoryMissing,
    /// Raw file: the requested path resolves to a place outside the storage
    /// root.
    PathEscapesRoot,
    /// Raw file: the requested path does not resolve to a file.
    FileUnavailable,
    /// An answer arrived that the operation was not waiting for.
    UnexpectedEvent,
}

/// The HTTP status under which `failure` is reported.
pub open spec fn status_of(failure: Failure) -> u16 {
    match failure {
        Failure::EmptyCredentials => 400,
        Failure::UsernameLength => 400,
        Failure::PasswordTooShort => 400,
        Failure::SignupConnectionFailed => 500,
        Failure::PasswordHashingFailed => 500,
        Failure::UsernameTaken => 409,
        Failure::SignupQueryFailed => 500,
        Failure::UserCreationFailed => 500,
        Failure::BlankCredentials => 400,
        Failure::ConnectionFailed => 500,
        Failure::InvalidCredentials => 401,
        Failure::PasswordVerificationFailed => 500,
        Failure::SessionCreationFailed => 500,
        Failure::BlankSessionToken => 400,
        Failure::InvalidSessionToken => 401,
        Failure::QueryFailed => 500,
        Failure::BlankRefreshToken => 400,
        Failure::InvalidRefreshToken => 401,
        Failure::RefreshTokenExpired => 401,
        Failure::CountMismatch => 400,
        Failure::AuthorizationMissing => 401,
        Failure::AuthorizationMalformed => 400,
        Failure::Denied(ErrorKind::AuthError(_)) => 401,
        Failure::Denied(ErrorKind::DatabaseError(_)) => 417,
        Failure::DocumentStoreUnavailable => 417,
        Failure::RelationalStoreUnavailable => 417,
        Failure::PreparationFailed => 500,
        Failure::ContentTypeMissing => 400,
        Failure::FilenameMissing => 400,
        Failure::MissingExtension => 400,
        Failure::StorageWriteFailed => 500,
        Failure::RelationalInsertFailed => 500,
        Failure::DocumentInsertFailed => 500,
        Failure::InvalidIdentifier => 400,
        Failure::StoreUnavailable => 500,
        Failure::NotFound => 404,
        Failure::DocumentQueryFailed => 500,
        Failure::MetadataMissing => 404,
        Failure::ListingFailed => 500,
        Failure::PathTraversalRejected => 403,
        Failure::BaseDirectoryMissing => 404,
        Failure::PathEscapesRoot => 403,
        Failure::FileUnavailable => 404,
        Failure::UnexpectedEvent => 500,
    }
}

/// The message under which `failure` is reported.
pub open spec fn message_of(failure: Failure) -> Seq<char> {
    match failure {
        Failure::EmptyCredentials => "Username and password cannot be empty"@,
        Failure::UsernameLength => "Username must be between 3 and 255 characters"@,
        Failure::PasswordTooShort => "Password must be at least 8 characters long"@,
        Failure::SignupConnectionFailed => "Database connection error"@,
        Failure::PasswordHashingFailed => "Failed to process password"@,
        Failure::UsernameTaken => "Username already taken"@,
        Failure::SignupQueryFailed => "Database query error"@,
        Failure::UserCreationFailed => "Failed to create user"@,
        Failure::BlankCredentials => "username or password is invalid."@,
        Failure::ConnectionFailed => "database connection error."@,
        Failure::InvalidCredentials => "username or password is invalid."@,
        Failure::PasswordVerificationFailed => "password verification failed."@,
        Failure::SessionCreationFailed => "failed to create session."@,
        Failure::BlankSessionToken => "session token is invalid."@,
        Failure::InvalidSessionToken => "invalid session token."@,
        Failure::QueryFailed => "database query error."@,
        Failure::BlankRefreshToken => "refresh token is invalid."@,
        Failure::InvalidRefreshToken => "invalid refresh token."@,
        Failure::RefreshTokenExpired => "refresh token has expired."@,
        Failure::CountMismatch => "metadata count does not match file count."@,
        Failure::AuthorizationMissing => "authorization header not found."@,
        Failure::AuthorizationMalformed => "Invalid authorization header format."@,
        Failure::Denied(ErrorKind::AuthError(AHError::InvalidCredential)) => "invalid credential"@,
        Failure::Denied(ErrorKind::AuthError(AHError::UserInactive)) => "user inactive"@,
        Failure::Denied(ErrorKind::AuthError(AHError::AccountSuspended)) => "account suspended"@,
        Failure::Denied(ErrorKind::DatabaseError(_)) => "Database error"@,
        Failure::DocumentStoreUnavailable => "Failed to connect to MongoDB"@,
        Failure::RelationalStoreUnavailable => "Failed to get database connection"@,
        Failure::PreparationFailed => "Database preparation failed."@,
        Failure::ContentTypeMissing => "Content-Type header missing."@,
        Failure::FilenameMissing => "filename was not found."@,
        Failure::MissingExtension => "extension was not found."@,
        Failure::StorageWriteFailed => "Failed to save uploaded file."@,
        Failure::RelationalInsertFailed => "Failed to store post metadata in database."@,
        Failure::DocumentInsertFailed => "Failed to store post in MongoDB."@,
        Failure::InvalidIdentifier => "Invalid post ID format"@,
        Failure::StoreUnavailable => "Failed to get database connection"@,
        Failure::NotFound => "Item not found"@,
        Failure::DocumentQueryFailed => "Database query failed"@,
        Failure::MetadataMissing => "the content you are looking for is not found."@,
        Failure::ListingFailed => "Query failed"@,
        Failure::PathTraversalRejected => "Invalid file path"@,
        Failure::BaseDirectoryMissing => "Base directory not found"@,
        Failure::PathEscapesRoot => "Access denied: path outside allowed directory"@,
        Failure::FileUnavailable => "File not found or access denied"@,
        Failure::UnexpectedEvent => "internal error"@,
    }
}

/// A failure as the client sees it: the status, and a body with the message.
#[derive(Clone, Debug, PartialEq, Eq)]
pub struct Rejection {
    pub status: u16,
    pub body: ErrorResponse,
}

impl Failure {
    /// This failure as the client sees it.
    pub fn rejection(&self) -> (r: Rejection)
        ensures
            r.status == status_of(*self),
            r.body.error@ == message_of(*self),
    {
        Rejection { status: self.status(), body: ErrorResponse { error: self.message() } }
    }

    /// The HTTP status under which this failure is reported.
    pub fn status(&self) -> (code: u16)
        ensures
            code == status_of(*self),
    {
        match self {
            Failure::EmptyCredentials
            | Failure::UsernameLength
            | Failure::PasswordTooShort
            | Failure::BlankCredentials
            | Failure::BlankSessionToken
            | Failure::BlankRefreshToken
            | Failure::CountMismatch
            | Failure::AuthorizationMalformed
            | Failure::ContentTypeMissing
            | Failure::FilenameMissing
            | Failure::MissingExtension
            | Failure::InvalidIdentifier => 400,
            Failure::InvalidCredentials
            | Failure::InvalidSessionToken
            | Failure::InvalidRefreshToken
            | Failure::RefreshTokenExpired
            | Failure::AuthorizationMissing
            | Failure::Denied(ErrorKind::AuthError(_)) => 401,
            Failure::PathTraversalRejected | Failure::PathEscapesRoot => 403,
            Failure::NotFound
            | Failure::MetadataMissing
            | Failure::BaseDirectoryMissing
            | Failure::FileUnavailable => 404,
            Failure::UsernameTaken => 409,
            Failure::Denied(ErrorKind::DatabaseError(_))
            | Failure::DocumentStoreUnavailable
            | Failure::RelationalStoreUnavailable => 417,
            Failure::SignupConnectionFailed
            | Failure::PasswordHashingFailed
            | Failure::SignupQueryFailed
            | Failure::UserCreationFailed
            | Failure::ConnectionFailed
            | Failure::PasswordVerificationFailed
            | Failure::SessionCreationFailed
            | Failure::QueryFailed
            | Failure::PreparationFailed
            | Failure::StorageWriteFailed
            | Failure::RelationalInsertFailed
            | Failure::DocumentInsertFailed
            | Failure::StoreUnavailable
            | Failure::DocumentQueryFailed
            | Failure::ListingFailed
            | Failure::UnexpectedEvent => 500,
        }
    }

    /// The message under which this failure is reported.
    pub fn message(&self) -> (text: String)
        ensures
            text@ == message_of(*self),
    {
        let text: &str = match self {
            Failure::EmptyCredentials => "Username and password cannot be empty",
            Failure::UsernameLength => "Username must be between 3 and 255 characters",
            Failure::PasswordTooShort => "Password must be at least 8 characters long",
            Failure::SignupConnectionFailed => "Database connection error",
            Failure::PasswordHashingFailed => "Failed to process password",
            Failure::UsernameTaken => "Username already taken",
            Failure::SignupQueryFailed => "Database query error",
            Failure::UserCreationFailed => "Failed to create user",
            Failure::BlankCredentials => "username or password is invalid.",
            Failure::ConnectionFailed => "database connection error.",
            Failure::InvalidCredentials => "username or password is invalid.",
            Failure::PasswordVerificationFailed => "password verification failed.",
            Failure::SessionCreationFailed => "failed to create session.",
            Failure::BlankSessionToken => "session token is invalid.",
            Failure::InvalidSessionToken => "invalid session token.",
            Failure::QueryFailed => "database query error.",
            Failure::BlankRefreshToken => "refresh token is invalid.",
            Failure::InvalidRefreshToken => "invalid refresh token.",
            Failure::RefreshTokenExpired => "refresh token has expired.",
            Failure::CountMismatch => "metadata count does not match file count.",
            Failure::AuthorizationMissing => "authorization header not found.",
            Failure::AuthorizationMalformed => "Invalid authorization header format.",
            Failure::Denied(ErrorKind::AuthError(AHError::InvalidCredential)) => "invalid credential",
            Failure::Denied(ErrorKind::AuthError(AHError::UserInactive)) => "user inactive",
            Failure::Denied(ErrorKind::AuthError(AHError::AccountSuspended)) => "account suspended",
            Failure::Denied(ErrorKind::DatabaseError(_)) => "Database error",
            Failure::DocumentStoreUnavailable => "Failed to connect to MongoDB",
            Failure::RelationalStoreUnavailable => "Failed to get database connection",
            Failure::PreparationFailed => "Database preparation failed.",
            Failure::ContentTypeMissing => "Content-Type header missing.",
            Failure::FilenameMissing => "filename was not found.",
            Failure::MissingExtension => "extension was not found.",
            Failure::StorageWriteFailed => "Failed to save uploaded file.",
            Failure::RelationalInsertFailed => "Failed to store post metadata in database.",
            Failure::DocumentInsertFailed => "Failed to store post in MongoDB.",
            Failure::InvalidIdentifier => "Invalid post ID format",
            Failure::StoreUnavailable => "Failed to get database connection",
            Failure::NotFound => "Item not found",
            Failure::DocumentQueryFailed => "Database query failed",
            Failure::MetadataMissing => "the content you are looking for is not found.",
            Failure::ListingFailed => "Query failed",
            Failure::PathTraversalRejected => "Invalid file path",
            Failure::BaseDirectoryMissing => "Base directory not found",
            Failure::PathEscapesRoot => "Access denied: path outside allowed directory",
            Failure::FileUnavailable => "File not found or access denied",
            Failure::UnexpectedEvent => "internal error",
        };
        text.to_owned()
    }
}

} // verus!
