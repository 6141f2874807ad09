//! Moving between and within the panes, and selecting an issue.
use vstd::prelude::*;
use crate::commands::{CommandResult, can_step_down};
use crate::context::app_context::{AppContext, is_list, selected_issue_of};
use crate::models::AppData;
use crate::navigation::{
    Direction, FocusedPane, NavigationState, detail_focused, pane_after, row_after, selected_row, with_row,
};

verus! {

/// Moves in a direction.
#[derive(Debug, Clone, Copy)]
pub struct NavigateCommand {
    direction: Direction,
}

/// Selects the issue of the focused list and focuses the detail pane.
#[derive(Debug, Clone, Copy)]
pub struct SelectItemCommand;

/// The number of rows of the focused pane: the sprint's issues, the board's, the
/// recently updated ones, or the transitions; none for the detail pane.
pub open spec fn rows_of(ctx: AppContext) -> usize {
    match ctx.navigation.focused_pane {
        FocusedPane::Sprint => match ctx.data.current_sprint {
            Some(s) => s.issues@.len() as usize,
            None => 0,
        },
        FocusedPane::Board => ctx.data.board_issues@.len() as usize,
        FocusedPane::LastUpdated => ctx.data.last_updated_issues@.len() as usize,
        FocusedPane::Detail => 0,
        FocusedPane::TransitionList => ctx.available_transitions@.len() as usize,
    }
}

/// The context with the issue that its focused list selects made the selected issue.
pub open spec fn with_selected_from_list(ctx: AppContext) -> AppContext {
    if is_list(ctx.navigation.focused_pane) && selected_issue_of(ctx.data, ctx.navigation) is Some {
        AppContext {
            data: AppData { selected_issue: selected_issue_of(ctx.data, ctx.navigation), ..ctx.data },
            ..ctx
        }
    } else {
        ctx
    }
}

/// What a move in `d` does to the context: left and right, and any move from the detail
/// pane, change the focused pane; up and down in another pane move its row and select
/// the issue under the new row.
pub open spec fn navigated(old: AppContext, new: AppContext, d: Direction) -> bool {
    if d == Direction::Left || d == Direction::Right || old.navigation.focused_pane == FocusedPane::Detail {
        new == (AppContext {
            navigation: NavigationState { focused_pane: pane_after(old.navigation.focused_pane, d), ..old.navigation },
            ..old
        })
    } else {
        new == with_selected_from_list(
            AppContext {
                navigation: with_row(old.navigation, old.navigation.focused_pane, row_after(
                    selected_row(old.navigation, old.navigation.focused_pane),
                    d,
                    rows_of(old),
                )),
                ..old
            },
        )
    }
}

/// What selecting does to the context: from a list, the issue under its row becomes the
/// selected issue and the detail pane gets the focus; elsewhere nothing changes.
pub open spec fn item_selected(old: AppContext, new: AppContext) -> bool {
    if is_list(old.navigation.focused_pane) {
        new == (AppContext { navigation: detail_focused(old.navigation), ..with_selected_from_list(old) })
    } else {
        new == old
    }
}

impl NavigateCommand {
    /// A move in `direction`.
    pub fn new(direction: Direction) -> (r: Self)
        ensures
            r.direction() == direction,
    {
        NavigateCommand { direction }
    }

    /// The direction of the move.
    pub closed spec fn direction(self) -> Direction {
        self.direction
    }

    /// Moves: left and right between the lists; up and down within the focused pane,
    /// selecting the issue under the new row; the detail pane does not move.
    pub fn execute(&self, ctx: &mut AppContext) -> (r: CommandResult)
        requires
            self.direction() == Direction::Down ==> can_step_down(*old(ctx)),
        ensures
            r == CommandResult::Continue,
            navigated(*old(ctx), *final(ctx), self.direction()),
    {
        match self.direction {
            Direction::Left | Direction::Right => {
                ctx.navigation.move_focus(self.direction);
            },
            Direction::Up | Direction::Down => {
                if ctx.navigation.focused_pane == FocusedPane::Detail {
                    ctx.navigation.move_focus(self.direction);
                } else {
                    let max_items = match ctx.navigation.focused_pane {
                        FocusedPane::Sprint => match &ctx.data.current_sprint {
                            Some(sprint) => sprint.issues.len(),
                            None => 0,
                        },
                        FocusedPane::Board => ctx.data.board_issues.len(),
                        FocusedPane::LastUpdated => ctx.data.last_updated_issues.len(),
                        FocusedPane::Detail => 0,
                        FocusedPane::TransitionList => ctx.available_transitions.len(),
                    };
                    ctx.navigation.move_selection(self.direction, max_items);
                    ctx.update_selected_issue();
                }
            },
        }
        CommandResult::Continue
    }

    /// What the move is called.
    pub fn description(&self) -> (r: &'static str)
        ensures
            r@ == (match self.direction() {
                Direction::Up => "Navigate up"@,
                Direction::Down => "Navigate down"@,
                Direction::Left => "Navigate left"@,
                Direction::Right => "Navigate right"@,
            }),
    {
        match self.direction {
            Direction::Up => "Navigate up",
            Direction::Down => "Navigate down",
            Direction::Left => "Navigate left",
            Direction::Right => "Navigate right",
        }
    }
}

impl SelectItemCommand {
    /// From a list: selects the issue under its row and focuses the detail pane.
    pub fn execute(&self, ctx: &mut AppContext) -> (r: CommandResult)
        ensures
            r == CommandResult::Continue,
            item_selected(*old(ctx), *final(ctx)),
    {
        match ctx.navigation.focused_pane {
            FocusedPane::Sprint | FocusedPane::Board | FocusedPane::LastUpdated => {
                ctx.update_selected_issue();
                ctx.navigation.focus_detail();
            },
            FocusedPane::Detail => {},
            FocusedPane::TransitionList => {},
        }
        CommandResult::Continue
    }

    /// The one-line text that the help view shows for this command.
    pub fn description(&self) -> (r: &'static str)
        ensures
            r@ == "Select current item"@,
    {
        "Select current item"
    }
}

} // verus!
