//! What the operations achieve together, against stores that answer as the
//! model does.
pub mod accounts;
pub mod files;
pub mod ingestion;
pub mod lookups;
pub mod sessions;
