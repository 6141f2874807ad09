//! The components of the interface, as state and text.
pub mod help_popup;
pub mod issue_detail;
pub mod issue_item;
pub mod issue_list;
pub mod footer;
pub mod help_view;
pub mod modal;
pub mod pane_detail;
pub mod pane_list;
pub mod transition_selector;
