//! What a key asks of the event loop.
use vstd::prelude::*;

verus! {

/// An action for the event loop to carry out.
#[derive(Debug, Clone, Copy, PartialEq, Eq, Structural)]
pub enum AppAction {
    Quit,
    LoadItems,
}

} // verus!
