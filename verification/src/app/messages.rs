//! The messages that fetches send back to the application.
use vstd::prelude::*;
use crate::app::navigator::ActiveList;
use crate::services::types::{JiraIssue, Paginated};

verus! {

/// The outcome of a fetch.
#[derive(Debug)]
pub enum AppMessage {
    /// A page of a list, to append to it or to replace it.
    ItemsLoaded { list: ActiveList, result: Paginated<JiraIssue>, append: bool },
    /// A list fetched anew in another order or under another tab.
    ItemsSorted { list: ActiveList, result: Paginated<JiraIssue> },
    /// A fetch for a list that failed.
    Error { list: ActiveList, message: String },
    /// The full issue for the detail pane.
    ItemDetailLoaded { item: JiraIssue },
}

} // verus!
