//! The context that the commands of the first interface act on.
pub mod app_context;
