//! The Jira REST API layer: documents, endpoints, errors and response types.
pub mod adf;
pub mod client;
pub mod endpoints;
pub mod error;
pub mod types;
