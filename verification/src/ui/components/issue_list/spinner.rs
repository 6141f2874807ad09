//! The spinner shown while a list loads.
use vstd::prelude::*;

verus! {

/// The frame shown at step `i` of the spinner's ten-frame cycle.
pub open spec fn spinner_frame(i: nat) -> Seq<char> {
    let k = i % 10;
    if k == 0 { "⠋"@ } else if k == 1 { "⠙"@ } else if k == 2 { "⠹"@ } else if k == 3 { "⠸"@ }
    else if k == 4 { "⠼"@ } else if k == 5 { "⠴"@ } else if k == 6 { "⠦"@ } else if k == 7 { "⠧"@ }
    else if k == 8 { "⠇"@ } else { "⠏"@ }
}

/// A spinner and its step.
#[derive(Debug, Clone, Copy, PartialEq, Eq, Structural)]
pub struct LoadingSpinner {
    pub index: usize,
}

impl LoadingSpinner {
    /// A spinner at its first frame.
    pub fn new() -> (r: Self)
        ensures
            r.index == 0,
    {
        LoadingSpinner { index: 0 }
    }

    /// The frame of the current step.
    pub fn current_frame(&self) -> (r: &'static str)
        ensures
            r@ == spinner_frame(self.index as nat),
    {
        let k = self.index % 10;
        if k == 0 { "⠋" } else if k == 1 { "⠙" } else if k == 2 { "⠹" } else if k == 3 { "⠸" }
        else if k == 4 { "⠼" } else if k == 5 { "⠴" } else if k == 6 { "⠦" } else if k == 7 { "⠧" }
        else if k == 8 { "⠇" } else { "⠏" }
    }

    /// Moves to the next step, wrapping around at the top of `usize`.
    pub fn advance(&mut self)
        ensures
            final(self).index == (if old(self).index == usize::MAX { 0 } else { old(self).index + 1 }) as int,
    {
        self.index = self.index.wrapping_add(1);
    }
}

impl Default for LoadingSpinner {
    fn default() -> (r: Self)
        ensures
            r.index == 0,
    {
        LoadingSpinner::new()
    }
}

/// Ten steps of the spinner show the same frame again.
pub proof fn lemma_spinner_period(i: nat)
    ensures
        spinner_frame(i + 10) == spinner_frame(i),
{
    assert((i + 10) % 10 == i % 10);
}

} // verus!
