//! The core of a media-publishing service: accounts and sessions, the
//! ingestion of uploaded files with their metadata, and their retrieval.
//!
//! The stores and the file system are reached by the surrounding service.
//! Each operation here is a conversation with them: it takes what a store
//! answered and says what to ask next, or how to reply to the client.
pub mod clock;
pub mod errors;
pub mod ident;
pub mod laws;
pub mod model;
pub mod password;
pub mod route;
pub mod runs;
pub mod store;
pub mod text;
pub mod token;
pub mod types;
pub mod utility;
