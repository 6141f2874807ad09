//! Quitting, the help view, and going back.
use vstd::prelude::*;
use crate::commands::CommandResult;
use crate::context::app_context::AppContext;
use crate::navigation::{AppView, FocusedPane, NavigationState, back_from_detail, transitions_hidden};

verus! {

/// Quits the application.
#[derive(Debug, Clone, Copy)]
pub struct QuitCommand;

/// Shows the help view.
#[derive(Debug, Clone, Copy)]
pub struct ShowHelpCommand;

/// Goes back: from the help view or the transition selector to the main view, or from
/// the detail pane to its list.
#[derive(Debug, Clone, Copy)]
pub struct GoBackCommand;

/// What showing help does to the context: the help view becomes the current view.
pub open spec fn help_shown(old: AppContext, new: AppContext) -> bool {
    new == (AppContext { navigation: NavigationState { current_view: AppView::Help, ..old.navigation }, ..old })
}

/// What going back does to the context: from the help view to the main view; from the
/// transition selector to the main view with no transitions and no issue in transition;
/// from the detail pane to the list it was entered from.
pub open spec fn gone_back(old: AppContext, new: AppContext) -> bool {
    match old.navigation.current_view {
        AppView::Help => new == (AppContext {
            navigation: NavigationState { current_view: AppView::Main, ..old.navigation },
            ..old
        }),
        AppView::TransitionSelector => {
            &&& new.navigation == transitions_hidden(old.navigation)
            &&& new.available_transitions@.len() == 0
            &&& new.transitioning_issue_key is None
            &&& new.data == old.data
            &&& new.should_quit == old.should_quit
            &&& new.use_api == old.use_api
        },
        AppView::Main => new == (AppContext { navigation: back_from_detail(old.navigation), ..old }),
    }
}

impl QuitCommand {
    /// Runs the command on `ctx`.
    pub fn execute(&self, ctx: &mut AppContext) -> (r: CommandResult)
        ensures
            *final(ctx) == (AppContext { should_quit: true, ..*old(ctx) }),
            r == CommandResult::Quit,
    {
        ctx.should_quit = true;
        CommandResult::Quit
    }

    /// The one-line text that the help view shows for this command.
    pub fn description(&self) -> (r: &'static str)
        ensures
            r@ == "Quit application"@,
    {
        "Quit application"
    }
}

impl ShowHelpCommand {
    /// Runs the command on `ctx`.
    pub fn execute(&self, ctx: &mut AppContext) -> (r: CommandResult)
        ensures
            help_shown(*old(ctx), *final(ctx)),
            r == CommandResult::Continue,
    {
        ctx.navigation.current_view = AppView::Help;
        CommandResult::Continue
    }

    /// The one-line text that the help view shows for this command.
    pub fn description(&self) -> (r: &'static str)
        ensures
            r@ == "Show help"@,
    {
        "Show help"
    }
}

impl GoBackCommand {
    /// Runs the command on `ctx`.
    pub fn execute(&self, ctx: &mut AppContext) -> (r: CommandResult)
        ensures
            r == CommandResult::Continue,
            gone_back(*old(ctx), *final(ctx)),
    {
        match ctx.navigation.current_view {
            AppView::Help => {
                ctx.navigation.current_view = AppView::Main;
            },
            AppView::TransitionSelector => {
                ctx.navigation.hide_transitions();
                ctx.available_transitions.clear();
                ctx.transitioning_issue_key = None;
            },
            AppView::Main => {
                if ctx.navigation.focused_pane == FocusedPane::Detail {
                    ctx.navigation.go_back_from_detail();
                }
            },
        }
        CommandResult::Continue
    }

    /// The one-line text that the help view shows for this command.
    pub fn description(&self) -> (r: &'static str)
        ensures
            r@ == "Go back to previous view"@,
    {
        "Go back to previous view"
    }
}

} // verus!

verus! {

/// Showing the help from the main view and going back returns to the main view with
/// the navigation as it was.
pub proof fn lemma_help_round_trip(n: crate::navigation::NavigationState)
    requires
        n.current_view == AppView::Main,
    ensures
        (crate::navigation::NavigationState {
            current_view: AppView::Main,
            ..crate::navigation::NavigationState { current_view: AppView::Help, ..n }
        }) == n,
{
}

} // verus!
