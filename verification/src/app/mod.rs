//! The application: its lists, detail pane and navigation, and how keys and fetched
//! data change them.
pub mod actions;
pub mod keybinds;
pub mod messages;
pub mod navigator;
pub mod state;
pub mod update;
