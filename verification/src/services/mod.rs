//! The Jira service layer: its data types, endpoints, queries and text extraction.
pub mod adf;
pub mod endpoints;
pub mod sort;
pub mod error;
pub mod types;
pub mod config;
pub mod client;
