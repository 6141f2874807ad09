//! The navigation of the first interface: which view is shown, which pane has the
//! focus, and the selected row of each list.
use vstd::prelude::*;

verus! {

/// The view on screen.
#[derive(Debug, Clone, Copy, PartialEq, Eq, Structural)]
pub enum AppView {
    Main,
    Help,
    TransitionSelector,
}

/// The pane with the focus.
#[derive(Debug, Clone, Copy, PartialEq, Eq, Structural)]
pub enum FocusedPane {
    Sprint,
    LastUpdated,
    Board,
    Detail,
    TransitionList,
}

/// A direction of the arrow keys.
#[derive(Debug, Clone, Copy, PartialEq, Eq, Structural)]
pub enum Direction {
    Up,
    Down,
    Left,
    Right,
}

/// What a key asks of the first interface.
#[derive(Debug, Clone, PartialEq, Eq)]
pub enum AppAction {
    Quit,
    ShowHelp,
    Navigate(Direction),
    SelectItem,
    GoBack,
    ShowTransitions,
    ExecuteTransition(String),
    NoOp,
}

/// Where the user is in the first interface.
#[derive(Debug, Clone, Copy, PartialEq, Eq, Structural)]
pub struct NavigationState {
    pub current_view: AppView,
    pub focused_pane: FocusedPane,
    pub previous_pane: Option<FocusedPane>,
    pub sprint_selected: usize,
    pub last_viewed_selected: usize,
    pub last_updated_selected: usize,
    pub transition_selected: usize,
}

/// The pane that a horizontal move reaches from `p`: the lists are in the order sprint,
/// last updated, board, and the ends stay; the detail pane and the transition list do
/// not move.
pub open spec fn pane_after(p: FocusedPane, d: Direction) -> FocusedPane {
    match d {
        Direction::Left => match p {
            FocusedPane::LastUpdated => FocusedPane::Sprint,
            FocusedPane::Board => FocusedPane::LastUpdated,
            _ => p,
        },
        Direction::Right => match p {
            FocusedPane::Sprint => FocusedPane::LastUpdated,
            FocusedPane::LastUpdated => FocusedPane::Board,
            _ => p,
        },
        _ => p,
    }
}

/// A selection after a vertical move in a list of `max` rows: down stops at the last
/// row, up stops at the first.
pub open spec fn row_after(s: usize, d: Direction, max: usize) -> usize {
    match d {
        Direction::Down => if s + 1 < max {
            (s + 1) as usize
        } else {
            s
        },
        Direction::Up => if s > 0 {
            (s - 1) as usize
        } else {
            0
        },
        _ => s,
    }
}

/// Whether `p` is one of the three issue lists.
pub open spec fn is_list_pane(p: FocusedPane) -> bool {
    p == FocusedPane::Sprint || p == FocusedPane::Board || p == FocusedPane::LastUpdated
}

/// The selected row of the pane `p`, where it has one.
pub open spec fn selected_row(n: NavigationState, p: FocusedPane) -> usize {
    match p {
        FocusedPane::Sprint => n.sprint_selected,
        FocusedPane::Board => n.last_viewed_selected,
        FocusedPane::LastUpdated => n.last_updated_selected,
        FocusedPane::TransitionList => n.transition_selected,
        FocusedPane::Detail => 0,
    }
}

/// `n` with the selected row of pane `p` set to `s`.
pub open spec fn with_row(n: NavigationState, p: FocusedPane, s: usize) -> NavigationState {
    match p {
        FocusedPane::Sprint => NavigationState { sprint_selected: s, ..n },
        FocusedPane::Board => NavigationState { last_viewed_selected: s, ..n },
        FocusedPane::LastUpdated => NavigationState { last_updated_selected: s, ..n },
        FocusedPane::TransitionList => NavigationState { transition_selected: s, ..n },
        FocusedPane::Detail => n,
    }
}

/// The state after giving the focus to the detail pane: from a list it remembers that
/// list; from elsewhere nothing changes.
pub open spec fn detail_focused(n: NavigationState) -> NavigationState {
    if is_list_pane(n.focused_pane) {
        NavigationState { previous_pane: Some(n.focused_pane), focused_pane: FocusedPane::Detail, ..n }
    } else {
        n
    }
}

/// The state after going back from the detail pane to the remembered pane (the sprint
/// list where none is); from elsewhere nothing changes.
pub open spec fn back_from_detail(n: NavigationState) -> NavigationState {
    if n.focused_pane == FocusedPane::Detail {
        NavigationState {
            focused_pane: match n.previous_pane {
                Some(p) => p,
                None => FocusedPane::Sprint,
            },
            ..n
        }
    } else {
        n
    }
}

/// The state with the transition selector open on its first row.
pub open spec fn transitions_shown(n: NavigationState) -> NavigationState {
    NavigationState {
        current_view: AppView::TransitionSelector,
        previous_pane: Some(n.focused_pane),
        focused_pane: FocusedPane::TransitionList,
        transition_selected: 0,
        ..n
    }
}

/// The state with the transition selector closed and the focus back where it was.
pub open spec fn transitions_hidden(n: NavigationState) -> NavigationState {
    NavigationState {
        current_view: AppView::Main,
        focused_pane: if n.focused_pane == FocusedPane::TransitionList {
            match n.previous_pane {
                Some(p) => p,
                None => FocusedPane::Sprint,
            }
        } else {
            n.focused_pane
        },
        ..n
    }
}

impl NavigationState {
    /// The main view with the sprint list focused and every selection on its first row.
    pub fn new() -> (r: Self)
        ensures
            r.current_view == AppView::Main,
            r.focused_pane == FocusedPane::Sprint,
            r.previous_pane is None,
            r.sprint_selected == 0 && r.last_viewed_selected == 0,
            r.last_updated_selected == 0 && r.transition_selected == 0,
    {
        NavigationState {
            current_view: AppView::Main,
            focused_pane: FocusedPane::Sprint,
            previous_pane: None,
            sprint_selected: 0,
            last_viewed_selected: 0,
            last_updated_selected: 0,
            transition_selected: 0,
        }
    }

    /// Moves the focus between the lists; vertical moves and the other panes stay.
    pub fn move_focus(&mut self, direction: Direction)
        ensures
            *final(self) == (NavigationState { focused_pane: pane_after(old(self).focused_pane, direction), ..*old(self) }),
    {
        match direction {
            Direction::Up => {},
            Direction::Down => {},
            Direction::Left => match self.focused_pane {
                FocusedPane::Sprint => self.focused_pane = FocusedPane::Sprint,
                FocusedPane::LastUpdated => self.focused_pane = FocusedPane::Sprint,
                FocusedPane::Board => self.focused_pane = FocusedPane::LastUpdated,
                _ => {},
            },
            Direction::Right => match self.focused_pane {
                FocusedPane::Sprint => self.focused_pane = FocusedPane::LastUpdated,
                FocusedPane::LastUpdated => self.focused_pane = FocusedPane::Board,
                FocusedPane::Board => self.focused_pane = FocusedPane::Board,
                _ => {},
            },
        }
    }

    /// Moves the selected row of the focused pane up or down within `max_items` rows.
    pub fn move_selection(&mut self, direction: Direction, max_items: usize)
        requires
            direction == Direction::Down ==> selected_row(*old(self), old(self).focused_pane) < usize::MAX,
        ensures
            *final(self) == with_row(*old(self), old(self).focused_pane, row_after(
                selected_row(*old(self), old(self).focused_pane),
                direction,
                max_items,
            )),
    {
        match self.focused_pane {
            FocusedPane::Sprint => match direction {
                Direction::Down => {
                    if self.sprint_selected + 1 < max_items {
                        self.sprint_selected = self.sprint_selected.saturating_add(1);
                    }
                },
                Direction::Up => self.sprint_selected = self.sprint_selected.saturating_sub(1),
                Direction::Left | Direction::Right => {},
            },
            FocusedPane::Board => match direction {
                Direction::Down => {
                    if self.last_viewed_selected + 1 < max_items {
                        self.last_viewed_selected = self.last_viewed_selected.saturating_add(1);
                    }
                },
                Direction::Up => {
                    self.last_viewed_selected = self.last_viewed_selected.saturating_sub(1)
                },
                Direction::Left | Direction::Right => {},
            },
            FocusedPane::LastUpdated => match direction {
                Direction::Down => {
                    if self.last_updated_selected + 1 < max_items {
                        self.last_updated_selected = self.last_updated_selected.saturating_add(1);
                    }
                },
                Direction::Up => {
                    self.last_updated_selected = self.last_updated_selected.saturating_sub(1)
                },
                Direction::Left | Direction::Right => {},
            },
            FocusedPane::TransitionList => match direction {
                Direction::Down => {
                    if self.transition_selected + 1 < max_items {
                        self.transition_selected = self.transition_selected.saturating_add(1);
                    }
                },
                Direction::Up => {
                    self.transition_selected = self.transition_selected.saturating_sub(1)
                },
                Direction::Left | Direction::Right => {},
            },
            FocusedPane::Detail => {},
        }
    }

    /// Gives the focus to the detail pane from a list, remembering the list.
    pub fn focus_detail(&mut self)
        ensures
            *final(self) == detail_focused(*old(self)),
    {
        match self.focused_pane {
            FocusedPane::Sprint | FocusedPane::Board | FocusedPane::LastUpdated => {
                self.previous_pane = Some(self.focused_pane);
                self.focused_pane = FocusedPane::Detail;
            },
            _ => {},
        }
    }

    /// Gives the focus back from the detail pane to the list it came from (the sprint
    /// list where none is remembered).
    pub fn go_back_from_detail(&mut self)
        ensures
            *final(self) == back_from_detail(*old(self)),
    {
        if self.focused_pane == FocusedPane::Detail {
            self.focused_pane = match self.previous_pane {
                Some(p) => p,
                None => FocusedPane::Sprint,
            };
        }
    }

    /// Opens the transition selector on its first row, the focus on its list; the pane
    /// that had the focus is remembered.
    pub fn show_transitions(&mut self)
        ensures
            *final(self) == transitions_shown(*old(self)),
    {
        self.previous_pane = Some(self.focused_pane);
        self.focused_pane = FocusedPane::TransitionList;
        self.current_view = AppView::TransitionSelector;
        self.transition_selected = 0;
    }

    /// Closes the transition selector and gives the focus back to the pane that had it
    /// (the sprint list where none is remembered).
    pub fn hide_transitions(&mut self)
        ensures
            *final(self) == transitions_hidden(*old(self)),
    {
        self.current_view = AppView::Main;
        if self.focused_pane == FocusedPane::TransitionList {
            self.focused_pane = match self.previous_pane {
                Some(p) => p,
                None => FocusedPane::Sprint,
            };
        }
    }
}

impl Default for NavigationState {
    fn default() -> (r: Self)
        ensures
            r == (NavigationState {
                current_view: AppView::Main,
                focused_pane: FocusedPane::Sprint,
                previous_pane: None,
                sprint_selected: 0,
                last_viewed_selected: 0,
                last_updated_selected: 0,
                transition_selected: 0,
            }),
    {
        NavigationState::new()
    }
}

/// Focusing the detail pane from a list and going back returns to that list, with
/// every selection as it was.
pub proof fn lemma_detail_round_trip(n: NavigationState)
    requires
        is_list_pane(n.focused_pane),
    ensures
        back_from_detail(detail_focused(n)) == (NavigationState { previous_pane: Some(n.focused_pane), ..n }),
{
}

/// Showing and then hiding the transitions returns the focus to the pane that had it,
/// on the main view, with every list's selection as it was.
pub proof fn lemma_transitions_round_trip(n: NavigationState)
    ensures
        transitions_hidden(transitions_shown(n)).focused_pane == n.focused_pane,
        transitions_hidden(transitions_shown(n)).current_view == AppView::Main,
        transitions_hidden(transitions_shown(n)).sprint_selected == n.sprint_selected,
        transitions_hidden(transitions_shown(n)).last_viewed_selected == n.last_viewed_selected,
        transitions_hidden(transitions_shown(n)).last_updated_selected == n.last_updated_selected,
{
}

/// A vertical move keeps a selection within a list of `max` rows inside it.
pub proof fn lemma_row_stays_in_list(s: usize, d: Direction, max: usize)
    requires
        s < max,
    ensures
        row_after(s, d, max) < max,
{
}

/// A horizontal move between lists is undone by the opposite move, away from the ends.
pub proof fn lemma_focus_moves_undo(p: FocusedPane)
    ensures
        p == FocusedPane::LastUpdated || p == FocusedPane::Board ==> pane_after(
            pane_after(p, Direction::Left),
            Direction::Right,
        ) == p,
        p == FocusedPane::Sprint || p == FocusedPane::LastUpdated ==> pane_after(
            pane_after(p, Direction::Right),
            Direction::Left,
        ) == p,
{
}

} // verus!
