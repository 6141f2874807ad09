//! The footer of the first interface.
use vstd::prelude::*;

verus! {

/// The footer and its text.
#[derive(Debug, Clone)]
pub struct Footer {
    pub text: String,
}

impl Footer {
    /// The footer that lists the main keys.
    pub fn new() -> (r: Self)
        ensures
            r.text@ == "q: Quit | ?: Help | Ctrl+T: Transition | hjkl: Navigate | Enter: Select & Focus Detail | Esc: Back"@,
    {
        Footer {
            text: "q: Quit | ?: Help | Ctrl+T: Transition | hjkl: Navigate | Enter: Select & Focus Detail | Esc: Back".to_string(),
        }
    }

    /// A footer with another text.
    pub fn with_text(text: &str) -> (r: Self)
        ensures
            r.text@ == text@,
    {
        Footer { text: text.to_string() }
    }
}

impl Default for Footer {
    fn default() -> (r: Self)
        ensures
            r.text@ == "q: Quit | ?: Help | Ctrl+T: Transition | hjkl: Navigate | Enter: Select & Focus Detail | Esc: Back"@,
    {
        Footer::new()
    }
}

} // verus!
