//! Retrieves the build artifacts that a CI service produced for one source
//! revision: the decisions of the pipeline, with their contracts.

pub mod artifact;
pub mod auth;
pub mod error;
pub mod repo;
pub mod revision;
pub mod text;
