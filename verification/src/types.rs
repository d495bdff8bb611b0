//! The shapes of requests and replies.
use vstd::prelude::*;

verus! {

/// The free-form metadata that comes with an uploaded file.
#[derive(Clone, Debug, PartialEq, Eq)]
pub struct UploadJson {
    pub title: String,
    pub creator: String,
    pub source: String,
    pub description: String,
}

/// What a `UploadJson` holds, as plain values.
pub struct UploadJsonView {
    pub title: Seq<char>,
    pub creator: Seq<char>,
    pub source: Seq<char>,
    pub description: Seq<char>,
}

impl View for UploadJson {
    type V = UploadJsonView;

    open spec fn view(&self) -> UploadJsonView {
        UploadJsonView {
            title: self.title@,
            creator: self.creator@,
            source: self.source@,
            description: self.description@,
        }
    }
}

impl DeepView for UploadJson {
    type V = UploadJsonView;

    open spec fn deep_view(&self) -> UploadJsonView {
        self.view()
    }
}

/// The document kept for a post: its content id, the metadata, and who
/// uploaded it.
#[derive(Clone, Debug, PartialEq, Eq)]
pub struct Post {
    pub post_id: u128,
    pub title: String,
    pub creator: String,
    pub source: String,
    pub description: String,
    pub uploader: u128,
}

/// What a `Post` holds, as plain values.
pub struct PostView {
    pub post_id: u128,
    pub title: Seq<char>,
    pub creator: Seq<char>,
    pub source: Seq<char>,
    pub description: Seq<char>,
    pub uploader: u128,
}

impl View for Post {
    type V = PostView;

    open spec fn view(&self) -> PostView {
        PostView {
            post_id: self.post_id,
            title: self.title@,
            creator: self.creator@,
            source: self.source@,
            description: self.description@,
            uploader: self.uploader,
        }
    }
}

impl DeepView for Post {
    type V = PostView;

    open spec fn deep_view(&self) -> PostView {
        self.view()
    }
}

/// A list of names: the stored file names of an upload, or all content ids.
#[derive(Clone, Debug, PartialEq, Eq)]
pub struct ResponseFile {
    pub file: Vec<String>,
}

/// What a `ResponseFile` holds, as plain values.
pub struct ResponseFileView {
    pub file: Seq<Seq<char>>,
}

impl View for ResponseFile {
    type V = ResponseFileView;

    open spec fn view(&self) -> ResponseFileView {
        ResponseFileView {
            file: self.file.deep_view(),
        }
    }
}

impl DeepView for ResponseFile {
    type V = ResponseFileView;

    open spec fn deep_view(&self) -> ResponseFileView {
        self.view()
    }
}

/// What an upload says of one of its files. The bytes stay with the service.
#[derive(Clone, Debug, PartialEq, Eq)]
pub struct UploadedFile {
    pub file_name: Option<String>,
    pub content_type: Option<String>,
}

/// What a `UploadedFile` holds, as plain values.
pub struct UploadedFileView {
    pub file_name: Option<Seq<char>>,
    pub content_type: Option<Seq<char>>,
}

impl View for UploadedFile {
    type V = UploadedFileView;

    open spec fn view(&self) -> UploadedFileView {
        UploadedFileView {
            file_name: self.file_name.deep_view(),
            content_type: self.content_type.deep_view(),
        }
    }
}

impl DeepView for UploadedFile {
    type V = UploadedFileView;

    open spec fn deep_view(&self) -> UploadedFileView {
        self.view()
    }
}

/// An ingestion batch: the files, and the metadata that belongs to them one
/// by one.
#[derive(Clone, Debug, PartialEq, Eq)]
pub struct UploadFrom {
    pub file: Vec<UploadedFile>,
    pub metadata: Vec<UploadJson>,
}

/// What a `UploadFrom` holds, as plain values.
pub struct UploadFromView {
    pub file: Seq<UploadedFileView>,
    pub metadata: Seq<UploadJsonView>,
}

impl View for UploadFrom {
    type V = UploadFromView;

    open spec fn view(&self) -> UploadFromView {
        UploadFromView {
            file: self.file.deep_view(),
            metadata: self.metadata.deep_view(),
        }
    }
}

impl DeepView for UploadFrom {
    type V = UploadFromView;

    open spec fn deep_view(&self) -> UploadFromView {
        self.view()
    }
}

/// A request to register.
#[derive(Clone, Debug, PartialEq, Eq)]
pub struct SignUpRequest {
    pub username: String,
    pub password: String,
}

/// What a `SignUpRequest` holds, as plain values.
pub struct SignUpRequestView {
    pub username: Seq<char>,
    pub password: Seq<char>,
}

impl View for SignUpRequest {
    type V = SignUpRequestView;

    open spec fn view(&self) -> SignUpRequestView {
        SignUpRequestView {
            username: self.username@,
            password: self.password@,
        }
    }
}

impl DeepView for SignUpRequest {
    type V = SignUpRequestView;

    open spec fn deep_view(&self) -> SignUpRequestView {
        self.view()
    }
}

/// The reply to a registration.
#[derive(Clone, Debug, PartialEq, Eq)]
pub struct SignUpResponse {
    pub user_id: String,
    pub username: String,
    pub message: String,
}

/// What a `SignUpResponse` holds, as plain values.
pub struct SignUpResponseView {
    pub user_id: Seq<char>,
    pub username: Seq<char>,
    pub message: Seq<char>,
}

impl View for SignUpResponse {
    type V = SignUpResponseView;

    open spec fn view(&self) -> SignUpResponseView {
        SignUpResponseView {
            user_id: self.user_id@,
            username: self.username@,
            message: self.message@,
        }
    }
}

impl DeepView for SignUpResponse {
    type V = SignUpResponseView;

    open spec fn deep_view(&self) -> SignUpResponseView {
        self.view()
    }
}

/// A request to log in by name and password.
#[derive(Clone, Debug, PartialEq, Eq)]
pub struct LoginRequest {
    pub username: String,
    pub password: String,
}

/// What a `LoginRequest` holds, as plain values.
pub struct LoginRequestView {
    pub username: Seq<char>,
    pub password: Seq<char>,
}

impl View for LoginRequest {
    type V = LoginRequestView;

    open spec fn view(&self) -> LoginRequestView {
        LoginRequestView {
            username: self.username@,
            password: self.password@,
        }
    }
}

impl DeepView for LoginRequest {
    type V = LoginRequestView;

    open spec fn deep_view(&self) -> LoginRequestView {
        self.view()
    }
}

/// A request to log in by session token.
#[derive(Clone, Debug, PartialEq, Eq)]
pub struct LoginSession {
    pub session_token: String,
}

/// What a `LoginSession` holds, as plain values.
pub struct LoginSessionView {
    pub session_token: Seq<char>,
}

impl View for LoginSession {
    type V = LoginSessionView;

    open spec fn view(&self) -> LoginSessionView {
        LoginSessionView {
            session_token: self.session_token@,
        }
    }
}

impl DeepView for LoginSession {
    type V = LoginSessionView;

    open spec fn deep_view(&self) -> LoginSessionView {
        self.view()
    }
}

/// A request for a new pair of tokens.
#[derive(Clone, Debug, PartialEq, Eq)]
pub struct RefreshToken {
    pub refresh_token: String,
}

/// What a `RefreshToken` holds, as plain values.
pub struct RefreshTokenView {
    pub refresh_token: Seq<char>,
}

impl View for RefreshToken {
    type V = RefreshTokenView;

    open spec fn view(&self) -> RefreshTokenView {
        RefreshTokenView {
            refresh_token: self.refresh_token@,
        }
    }
}

impl DeepView for RefreshToken {
    type V = RefreshTokenView;

    open spec fn deep_view(&self) -> RefreshTokenView {
        self.view()
    }
}

/// The reply to a login by session token.
#[derive(Clone, Debug, PartialEq, Eq)]
pub struct LoginResponse {
    pub user_id: String,
    pub username: String,
    pub message: String,
}

/// What a `LoginResponse` holds, as plain values.
pub struct LoginResponseView {
    pub user_id: Seq<char>,
    pub username: Seq<char>,
    pub message: Seq<char>,
}

impl View for LoginResponse {
    type V = LoginResponseView;

    open spec fn view(&self) -> LoginResponseView {
        LoginResponseView {
            user_id: self.user_id@,
            username: self.username@,
            message: self.message@,
        }
    }
}

impl DeepView for LoginResponse {
    type V = LoginResponseView;

    open spec fn deep_view(&self) -> LoginResponseView {
        self.view()
    }
}

/// The reply that hands out a pair of tokens, both in clear.
#[derive(Clone, Debug, PartialEq, Eq)]
pub struct SessionTokenResponse {
    pub user_id: String,
    pub username: String,
    pub session_token: String,
    pub refresh_token: String,
    pub message: String,
}

/// What a `SessionTokenResponse` holds, as plain values.
pub struct SessionTokenResponseView {
    pub user_id: Seq<char>,
    pub username: Seq<char>,
    pub session_token: Seq<char>,
    pub refresh_token: Seq<char>,
    pub message: Seq<char>,
}

impl View for SessionTokenResponse {
    type V = SessionTokenResponseView;

    open spec fn view(&self) -> SessionTokenResponseView {
        SessionTokenResponseView {
            user_id: self.user_id@,
            username: self.username@,
            session_token: self.session_token@,
            refresh_token: self.refresh_token@,
            message: self.message@,
        }
    }
}

impl DeepView for SessionTokenResponse {
    type V = SessionTokenResponseView;

    open spec fn deep_view(&self) -> SessionTokenResponseView {
        self.view()
    }
}

/// The body of every failure: one message.
#[derive(Clone, Debug, PartialEq, Eq)]
pub struct ErrorResponse {
    pub error: String,
}

/// What a `ErrorResponse` holds, as plain values.
pub struct ErrorResponseView {
    pub error: Seq<char>,
}

impl View for ErrorResponse {
    type V = ErrorResponseView;

    open spec fn view(&self) -> ErrorResponseView {
        ErrorResponseView {
            error: self.error@,
        }
    }
}

impl DeepView for ErrorResponse {
    type V = ErrorResponseView;

    open spec fn deep_view(&self) -> ErrorResponseView {
        self.view()
    }
}

/// One item as it is read back: its stored file name and its metadata.
#[derive(Clone, Debug, PartialEq, Eq)]
pub struct ItemResponse {
    pub image: String,
    pub metadata: UploadJson,
}

/// What a `ItemResponse` holds, as plain values.
pub struct ItemResponseView {
    pub image: Seq<char>,
    pub metadata: UploadJsonView,
}

impl View for ItemResponse {
    type V = ItemResponseView;

    open spec fn view(&self) -> ItemResponseView {
        ItemResponseView {
            image: self.image@,
            metadata: self.metadata@,
        }
    }
}

impl DeepView for ItemResponse {
    type V = ItemResponseView;

    open spec fn deep_view(&self) -> ItemResponseView {
        self.view()
    }
}

} // verus!
