//! Personal media-collection manager: catalog records, configuration with
//! a concealed access token, and a synchronization engine that keeps the
//! local collection file and a remote copy consistent.

pub mod digest;
pub mod records;
pub mod text;
pub mod config;
pub mod reconcile;
pub mod sync;
pub mod cli;
pub mod store;
