//! The selection within an issue list and how the arrow keys move it.
use vstd::prelude::*;

verus! {

/// What a move in a list asks of the application.
#[derive(Debug, Clone, Copy, PartialEq, Eq, Structural)]
pub enum ListAction {
    NoChange,
    RequestMore,
    SelectionChanged,
    Sort,
}

/// The selected row of a list (none at first) and the first row shown.
#[derive(Debug, Clone, Copy, PartialEq, Eq, Structural)]
pub struct ListNavigator {
    pub selected: Option<usize>,
    pub offset: usize,
}

/// The selection after moving up in a list of `count` items, and what the move asks.
pub open spec fn up_step(sel: Option<usize>, count: usize) -> (Option<usize>, ListAction) {
    if count == 0 {
        (sel, ListAction::NoChange)
    } else {
        match sel {
            Some(s) => if s > 0 {
                (Some((s - 1) as usize), ListAction::SelectionChanged)
            } else {
                (sel, ListAction::NoChange)
            },
            None => (Some(0), ListAction::NoChange),
        }
    }
}

/// The selection after moving down in a list of `count` items, and what the move asks:
/// at the last item, more items when there are more and none are loading.
pub open spec fn down_step(sel: Option<usize>, count: usize, has_more: bool, is_loading: bool) -> (
    Option<usize>,
    ListAction,
) {
    if count == 0 {
        (sel, ListAction::NoChange)
    } else {
        match sel {
            Some(s) => if s < count - 1 {
                (Some((s + 1) as usize), ListAction::SelectionChanged)
            } else if has_more && !is_loading {
                (sel, ListAction::RequestMore)
            } else {
                (sel, ListAction::NoChange)
            },
            None => (Some(0), ListAction::NoChange),
        }
    }
}

impl ListNavigator {
    /// A navigator with nothing selected.
    pub fn new() -> (r: Self)
        ensures
            r.selected is None,
            r.offset == 0,
    {
        ListNavigator { selected: None, offset: 0 }
    }

    /// Moves the selection up one row in a list of `item_count` items.
    pub fn move_up(&mut self, item_count: usize) -> (r: ListAction)
        ensures
            (final(self).selected, r) == up_step(old(self).selected, item_count),
            final(self).offset == old(self).offset,
    {
        if item_count == 0 {
            return ListAction::NoChange;
        }
        match self.selected {
            Some(selected) => {
                if selected > 0 {
                    self.selected = Some(selected - 1);
                    return ListAction::SelectionChanged;
                }
            },
            None => {
                self.selected = Some(0);
            },
        }
        ListAction::NoChange
    }

    /// Moves the selection down one row in a list of `item_count` items; at the last
    /// row it asks for more when the list has more and is not loading.
    pub fn move_down(&mut self, item_count: usize, has_more: bool, is_loading: bool) -> (r: ListAction)
        ensures
            (final(self).selected, r) == down_step(old(self).selected, item_count, has_more, is_loading),
            final(self).offset == old(self).offset,
    {
        if item_count == 0 {
            return ListAction::NoChange;
        }
        match self.selected {
            Some(selected) => {
                if selected < item_count - 1 {
                    self.selected = Some(selected + 1);
                    return ListAction::SelectionChanged;
                }
                if has_more && !is_loading {
                    return ListAction::RequestMore;
                }
            },
            None => {
                self.selected = Some(0);
            },
        }
        ListAction::NoChange
    }

    /// The selected row.
    pub fn selected(&self) -> (r: Option<usize>)
        ensures
            r == self.selected,
    {
        self.selected
    }

    /// Selects a row, or none.
    pub fn select(&mut self, index: Option<usize>)
        ensures
            final(self).selected == index,
            final(self).offset == old(self).offset,
    {
        self.selected = index;
    }
}

impl Default for ListNavigator {
    fn default() -> (r: Self)
        ensures
            r.selected is None,
            r.offset == 0,
    {
        ListNavigator::new()
    }
}

/// A move keeps a selection that lies within the list within it.
pub proof fn lemma_moves_stay_in_list(sel: Option<usize>, count: usize, has_more: bool, is_loading: bool)
    requires
        sel matches Some(s) ==> s < count,
    ensures
        up_step(sel, count).0 matches Some(s) ==> s < count || count == 0,
        down_step(sel, count, has_more, is_loading).0 matches Some(s) ==> s < count || count == 0,
{
}

/// A move down that changed the selection is undone by a move up.
pub proof fn lemma_down_then_up(sel: Option<usize>, count: usize, has_more: bool, is_loading: bool)
    requires
        down_step(sel, count, has_more, is_loading).1 == ListAction::SelectionChanged,
    ensures
        up_step(down_step(sel, count, has_more, is_loading).0, count) == (sel, ListAction::SelectionChanged),
{
}

/// A move up that changed a selection within the list is undone by a move down.
pub proof fn lemma_up_then_down(sel: Option<usize>, count: usize, has_more: bool, is_loading: bool)
    requires
        sel matches Some(s) ==> s < count,
        up_step(sel, count).1 == ListAction::SelectionChanged,
    ensures
        down_step(up_step(sel, count).0, count, has_more, is_loading) == (sel, ListAction::SelectionChanged),
{
}

} // verus!
