//! Showing an issue's transitions and carrying one out. Each command has two steps:
//! the first says what to fetch, the second takes in what the fetch gave.
use vstd::prelude::*;
use crate::api::types::JiraTransition;
use crate::commands::CommandResult;
use crate::context::app_context::{AppContext, selected_issue_of};
use crate::navigation::{transitions_hidden, transitions_shown};

verus! {

/// Shows the transitions of the selected issue.
#[derive(Debug, Clone, Copy)]
pub struct ShowTransitionsCommand;

/// Carries out one transition of the issue whose transitions are shown.
#[derive(Debug, Clone)]
pub struct ExecuteTransitionCommand {
    transition_id: String,
}

impl ShowTransitionsCommand {
    /// The key of the issue whose transitions to fetch: the selected issue's, where the
    /// API is in use.
    pub fn begin(&self, ctx: &AppContext) -> (r: Option<String>)
        ensures
            r is Some <==> ctx.use_api && selected_issue_of(ctx.data, ctx.navigation) is Some,
            r matches Some(k) ==> k@ == selected_issue_of(ctx.data, ctx.navigation)->0.key@,
    {
        if !ctx.use_api {
            return None;
        }
        ctx.get_selected_issue_key()
    }

    /// Takes in the transitions fetched for `issue_key`, where the fetch succeeded, and
    /// opens the selector on them; a failed fetch changes nothing.
    pub fn finish(&self, ctx: &mut AppContext, issue_key: String, fetched: Option<Vec<JiraTransition>>) -> (r: CommandResult)
        ensures
            r == CommandResult::Continue,
            fetched is None ==> *final(ctx) == *old(ctx),
            fetched matches Some(t) ==> *final(ctx) == (AppContext {
                available_transitions: t,
                transitioning_issue_key: Some(issue_key),
                navigation: transitions_shown(old(ctx).navigation),
                ..*old(ctx)
            }),
    {
        match fetched {
            Some(t) => {
                ctx.available_transitions = t;
                ctx.transitioning_issue_key = Some(issue_key);
                ctx.navigation.show_transitions();
            },
            None => {},
        }
        CommandResult::Continue
    }

    /// The one-line text that the help view shows for this command.
    pub fn description(&self) -> (r: &'static str)
        ensures
            r@ == "Show available transitions for selected issue"@,
    {
        "Show available transitions for selected issue"
    }
}

impl ExecuteTransitionCommand {
    /// The command for transition `transition_id`.
    pub fn new(transition_id: String) -> (r: Self)
        ensures
            r.transition_id() == transition_id,
    {
        ExecuteTransitionCommand { transition_id }
    }

    /// The transition that this command carries out.
    pub closed spec fn transition_id(self) -> String {
        self.transition_id
    }

    /// The issue key and transition id to send, where an issue's transitions are shown
    /// and the API is in use.
    pub fn begin(&self, ctx: &AppContext) -> (r: Option<(String, String)>)
        ensures
            r is Some <==> ctx.use_api && ctx.transitioning_issue_key is Some,
            r matches Some(p) ==> Some(p.0) == ctx.transitioning_issue_key && p.1 == self.transition_id(),
    {
        if !ctx.use_api {
            return None;
        }
        match &ctx.transitioning_issue_key {
            Some(k) => Some((k.clone(), self.transition_id.clone())),
            None => None,
        }
    }

    /// Takes in whether the transition went through: where it did, the selector closes
    /// and forgets its transitions (the data is then refreshed); where it failed,
    /// nothing changes.
    pub fn finish(&self, ctx: &mut AppContext, succeeded: bool) -> (r: CommandResult)
        ensures
            r == CommandResult::Continue,
            !succeeded ==> *final(ctx) == *old(ctx),
            succeeded ==> {
                &&& final(ctx).navigation == transitions_hidden(old(ctx).navigation)
                &&& final(ctx).available_transitions@.len() == 0
                &&& final(ctx).transitioning_issue_key is None
                &&& final(ctx).data == old(ctx).data
                &&& final(ctx).should_quit == old(ctx).should_quit
                &&& final(ctx).use_api == old(ctx).use_api
            },
    {
        if succeeded {
            ctx.navigation.hide_transitions();
            ctx.available_transitions.clear();
            ctx.transitioning_issue_key = None;
        }
        CommandResult::Continue
    }

    /// The one-line text that the help view shows for this command.
    pub fn description(&self) -> (r: &'static str)
        ensures
            r@ == "Execute transition for issue"@,
    {
        "Execute transition for issue"
    }
}

} // verus!
