//! The operations of the service, one module for each family.
pub mod items;
pub mod upload;
pub mod user;
