//! A modal window around some content.
use vstd::prelude::*;

verus! {

/// A modal window: its content, title, and size in percent of the screen.
#[derive(Debug, Clone)]
pub struct Modal<T> {
    pub content: T,
    pub title: String,
    pub width_percent: u16,
    pub height_percent: u16,
}

impl<T> Modal<T> {
    /// A window titled `Modal`, 60% wide and 70% high.
    pub fn new(content: T) -> (r: Self)
        ensures
            r.content == content,
            r.title@ == "Modal"@,
            r.width_percent == 60 && r.height_percent == 70,
    {
        Modal { content, title: "Modal".to_string(), width_percent: 60, height_percent: 70 }
    }

    /// This window with another title.
    pub fn with_title(self, title: &str) -> (r: Self)
        ensures
            r.content == self.content,
            r.title@ == title@,
            r.width_percent == self.width_percent && r.height_percent == self.height_percent,
    {
        Modal { content: self.content, title: title.to_string(), width_percent: self.width_percent, height_percent: self.height_percent }
    }

    /// This window with another size.
    pub fn with_size(self, width_percent: u16, height_percent: u16) -> (r: Self)
        ensures
            r.content == self.content,
            r.title == self.title,
            r.width_percent == width_percent && r.height_percent == height_percent,
    {
        Modal { content: self.content, title: self.title, width_percent, height_percent }
    }
}

} // verus!
