//! Which of the three lists is active, and the moves between them.
use vstd::prelude::*;

verus! {

/// One of the three lists, from left to right in the order of the moves.
#[derive(Debug, Clone, Copy, PartialEq, Eq, Structural)]
pub enum ActiveList {
    Sprint,
    RecentlyUpdated,
    Backlog,
}

/// The list to the left of `l`; the first stays.
pub open spec fn left_of(l: ActiveList) -> ActiveList {
    match l {
        ActiveList::Sprint => ActiveList::Sprint,
        ActiveList::RecentlyUpdated => ActiveList::Sprint,
        ActiveList::Backlog => ActiveList::RecentlyUpdated,
    }
}

/// The list to the right of `l`; the last stays.
pub open spec fn right_of(l: ActiveList) -> ActiveList {
    match l {
        ActiveList::Sprint => ActiveList::RecentlyUpdated,
        ActiveList::RecentlyUpdated => ActiveList::Backlog,
        ActiveList::Backlog => ActiveList::Backlog,
    }
}

/// The active list.
#[derive(Debug, Clone, Copy, PartialEq, Eq, Structural)]
pub struct Navigator {
    pub active: ActiveList,
}

impl Navigator {
    /// The sprint list active.
    pub fn new() -> (r: Self)
        ensures
            r.active == ActiveList::Sprint,
    {
        Navigator { active: ActiveList::Sprint }
    }

    /// Activates the list to the left.
    pub fn move_left(&mut self)
        ensures
            final(self).active == left_of(old(self).active),
    {
        self.active = match self.active {
            ActiveList::Sprint => ActiveList::Sprint,
            ActiveList::RecentlyUpdated => ActiveList::Sprint,
            ActiveList::Backlog => ActiveList::RecentlyUpdated,
        };
    }

    /// Activates the list to the right.
    pub fn move_right(&mut self)
        ensures
            final(self).active == right_of(old(self).active),
    {
        self.active = match self.active {
            ActiveList::Sprint => ActiveList::RecentlyUpdated,
            ActiveList::RecentlyUpdated => ActiveList::Backlog,
            ActiveList::Backlog => ActiveList::Backlog,
        };
    }
}

impl Default for Navigator {
    fn default() -> (r: Self)
        ensures
            r.active == ActiveList::Sprint,
    {
        Navigator::new()
    }
}

/// A move right undoes a move left from any list but the first, and a move left undoes
/// a move right from any list but the last.
pub proof fn lemma_moves_undo(l: ActiveList)
    ensures
        l != ActiveList::Sprint ==> right_of(left_of(l)) == l,
        l != ActiveList::Backlog ==> left_of(right_of(l)) == l,
{
}

/// Two moves in one direction reach the end on that side from any list, and a move
/// at an end stays there.
pub proof fn lemma_moves_reach_ends(l: ActiveList)
    ensures
        left_of(left_of(l)) == ActiveList::Sprint,
        right_of(right_of(l)) == ActiveList::Backlog,
        left_of(ActiveList::Sprint) == ActiveList::Sprint,
        right_of(ActiveList::Backlog) == ActiveList::Backlog,
{
}

} // verus!
