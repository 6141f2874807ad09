//! LazyJira: the logic of a terminal client for Jira, with its contracts.

pub mod text;
pub mod auth;
pub mod time;
pub mod json;
pub mod services;
pub mod api;
pub mod ui;
pub mod events;
pub mod app;
pub mod models;
pub mod navigation;
pub mod context;
pub mod commands;
pub mod data_manager;
pub mod jira;
