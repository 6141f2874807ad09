//! The commands of the first interface: what each action does to the context.
use vstd::prelude::*;
use crate::context::app_context::AppContext;
use crate::commands::navigation::{item_selected, navigated};
use crate::commands::ui::{gone_back, help_shown};
use crate::navigation::{AppAction, Direction, selected_row};

pub mod navigation;
pub mod transition;
pub mod ui;

verus! {

/// What the event loop does after a command.
#[derive(Debug, Clone, Copy, PartialEq, Eq, Structural)]
pub enum CommandResult {
    Continue,
    Quit,
    Handled,
}

/// Carries out actions through their commands.
#[derive(Debug, Clone, Copy)]
pub struct CommandRegistry {}

impl Default for CommandRegistry {
    fn default() -> (r: Self) {
        CommandRegistry::new()
    }
}

/// Whether a move down in the focused pane of `ctx` can count one row further.
pub open spec fn can_step_down(ctx: AppContext) -> bool {
    selected_row(ctx.navigation, ctx.navigation.focused_pane) < usize::MAX
}

impl CommandRegistry {
    /// A registry.
    pub fn new() -> (r: Self) {
        CommandRegistry {}
    }

    /// Carries out an action through its command and says what the loop does next;
    /// `None`, with nothing changed, for the transition actions, which fetch and go
    /// through their commands' two steps.
    pub fn execute_action(&self, action: &AppAction, ctx: &mut AppContext) -> (r: Option<CommandResult>)
        requires
            *action == AppAction::Navigate(Direction::Down) ==> can_step_down(*old(ctx)),
        ensures
            match *action {
                AppAction::Quit => r == Some(CommandResult::Quit) && *final(ctx) == (AppContext {
                    should_quit: true,
                    ..*old(ctx)
                }),
                AppAction::ShowHelp => r == Some(CommandResult::Continue) && help_shown(*old(ctx), *final(ctx)),
                AppAction::Navigate(d) => r == Some(CommandResult::Continue) && navigated(*old(ctx), *final(ctx), d),
                AppAction::SelectItem => r == Some(CommandResult::Continue) && item_selected(*old(ctx), *final(ctx)),
                AppAction::GoBack => r == Some(CommandResult::Continue) && gone_back(*old(ctx), *final(ctx)),
                AppAction::ShowTransitions => r is None && *final(ctx) == *old(ctx),
                AppAction::ExecuteTransition(_) => r is None && *final(ctx) == *old(ctx),
                AppAction::NoOp => r == Some(CommandResult::Continue) && *final(ctx) == *old(ctx),
            },
    {
        match action {
            AppAction::Quit => Some(ui::QuitCommand.execute(ctx)),
            AppAction::ShowHelp => Some(ui::ShowHelpCommand.execute(ctx)),
            AppAction::Navigate(direction) => Some(navigation::NavigateCommand::new(*direction).execute(ctx)),
            AppAction::SelectItem => Some(navigation::SelectItemCommand.execute(ctx)),
            AppAction::GoBack => Some(ui::GoBackCommand.execute(ctx)),
            AppAction::ShowTransitions => None,
            AppAction::ExecuteTransition(_) => None,
            AppAction::NoOp => Some(CommandResult::Continue),
        }
    }
}

} // verus!
