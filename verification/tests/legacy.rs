use lazyjira::api::error::ApiError;
use lazyjira::api::types::{JiraStatus, JiraTransition};
use lazyjira::commands::navigation::{NavigateCommand, SelectItemCommand};
use lazyjira::commands::transition::{ExecuteTransitionCommand, ShowTransitionsCommand};
use lazyjira::commands::ui::{GoBackCommand, QuitCommand, ShowHelpCommand};
use lazyjira::commands::{CommandRegistry, CommandResult};
use lazyjira::context::app_context::AppContext;
use lazyjira::data_manager::{refresh_all_data, DataManagerConfig};
use lazyjira::jira::{JiraClient, JiraConfig};
use lazyjira::models::{AppData, JiraIssue, Sprint};
use lazyjira::navigation::{AppAction, AppView, Direction, FocusedPane, NavigationState};
use lazyjira::time::Timestamp;
use lazyjira::ui::components::pane_detail::IssueDetail;
use lazyjira::ui::components::transition_selector::TransitionSelector;

fn issue(key: &str) -> JiraIssue {
    JiraIssue {
        key: key.to_string(),
        summary: "s".to_string(),
        description: Some("line one\nline two".to_string()),
        status: "To Do".to_string(),
        priority: None,
        assignee: None,
        reporter: None,
        created: Timestamp { secs: 0, nanos: 0 },
        updated: Timestamp { secs: 0, nanos: 0 },
        issue_type: "Bug".to_string(),
    }
}

fn context() -> AppContext {
    let data = AppData::with_mock_data_at(Timestamp { secs: 1000, nanos: 0 });
    AppContext::new(data, NavigationState::new(), true)
}

fn transition(id: &str, name: &str, to: &str) -> JiraTransition {
    JiraTransition { id: id.to_string(), name: name.to_string(), to: JiraStatus { name: to.to_string() } }
}

#[test]
fn test_mock_data() {
    let d = AppData::with_mock_data_at(Timestamp { secs: 1000, nanos: 0 });
    let sprint = d.current_sprint.as_ref().unwrap();
    assert_eq!(sprint.issues.len(), 3);
    assert_eq!(d.board_issues[1].key, "PROJ-124");
    assert_eq!(d.last_updated_issues[0].key, "PROJ-124");
    assert_eq!(d.selected_issue.as_ref().unwrap().key, "PROJ-123");
    assert!(AppData::new().current_sprint.is_none());
    assert!(AppData::with_mock_data().selected_issue.is_some());
}

#[test]
fn test_navigation_moves() {
    let mut n = NavigationState::new();
    n.move_focus(Direction::Right);
    assert_eq!(n.focused_pane, FocusedPane::LastUpdated);
    n.move_focus(Direction::Right);
    n.move_focus(Direction::Right);
    assert_eq!(n.focused_pane, FocusedPane::Board);
    n.move_selection(Direction::Down, 2);
    n.move_selection(Direction::Down, 2);
    assert_eq!(n.last_viewed_selected, 1);
    n.move_selection(Direction::Up, 2);
    n.move_selection(Direction::Up, 2);
    assert_eq!(n.last_viewed_selected, 0);
    n.focus_detail();
    assert_eq!(n.focused_pane, FocusedPane::Detail);
    n.go_back_from_detail();
    assert_eq!(n.focused_pane, FocusedPane::Board);
}

#[test]
fn test_navigate_and_select_commands() {
    let mut ctx = context();
    assert_eq!(NavigateCommand::new(Direction::Down).execute(&mut ctx), CommandResult::Continue);
    assert_eq!(ctx.navigation.sprint_selected, 1);
    assert_eq!(ctx.data.selected_issue.as_ref().unwrap().key, "PROJ-124");
    assert_eq!(ctx.get_selected_issue_key(), Some("PROJ-124".to_string()));
    SelectItemCommand.execute(&mut ctx);
    assert_eq!(ctx.navigation.focused_pane, FocusedPane::Detail);
    assert_eq!(GoBackCommand.execute(&mut ctx), CommandResult::Continue);
    assert_eq!(ctx.navigation.focused_pane, FocusedPane::Sprint);
    assert_eq!(NavigateCommand::new(Direction::Up).description(), "Navigate up");
}

#[test]
fn test_quit_and_help_commands() {
    let mut ctx = context();
    assert_eq!(ShowHelpCommand.execute(&mut ctx), CommandResult::Continue);
    assert_eq!(ctx.navigation.current_view, AppView::Help);
    GoBackCommand.execute(&mut ctx);
    assert_eq!(ctx.navigation.current_view, AppView::Main);
    assert_eq!(QuitCommand.execute(&mut ctx), CommandResult::Quit);
    assert!(ctx.should_quit);
}

#[test]
fn test_registry() {
    let mut ctx = context();
    let r = CommandRegistry::new();
    assert_eq!(r.execute_action(&AppAction::Navigate(Direction::Right), &mut ctx), Some(CommandResult::Continue));
    assert_eq!(ctx.navigation.focused_pane, FocusedPane::LastUpdated);
    assert_eq!(r.execute_action(&AppAction::ShowTransitions, &mut ctx), None);
    assert_eq!(r.execute_action(&AppAction::NoOp, &mut ctx), Some(CommandResult::Continue));
    assert_eq!(r.execute_action(&AppAction::Quit, &mut ctx), Some(CommandResult::Quit));
}

#[test]
fn test_registry_runs_each_command() {
    let mut ctx = context();
    let r = CommandRegistry::new();
    assert_eq!(r.execute_action(&AppAction::ShowHelp, &mut ctx), Some(CommandResult::Continue));
    assert_eq!(ctx.navigation.current_view, AppView::Help);
    assert_eq!(r.execute_action(&AppAction::GoBack, &mut ctx), Some(CommandResult::Continue));
    assert_eq!(ctx.navigation.current_view, AppView::Main);
    assert_eq!(r.execute_action(&AppAction::SelectItem, &mut ctx), Some(CommandResult::Continue));
    assert_eq!(ctx.navigation.focused_pane, FocusedPane::Detail);
    assert_eq!(r.execute_action(&AppAction::GoBack, &mut ctx), Some(CommandResult::Continue));
    assert_eq!(ctx.navigation.focused_pane, FocusedPane::Sprint);
    assert!(!ctx.should_quit);
}

#[test]
fn test_transition_commands() {
    let mut ctx = context();
    let show = ShowTransitionsCommand;
    let key = show.begin(&ctx).unwrap();
    assert_eq!(key, "PROJ-123");
    show.finish(&mut ctx, key, Some(vec![transition("11", "Start", "In Progress")]));
    assert_eq!(ctx.navigation.current_view, AppView::TransitionSelector);
    assert_eq!(ctx.navigation.focused_pane, FocusedPane::TransitionList);
    assert_eq!(ctx.transitioning_issue_key, Some("PROJ-123".to_string()));
    let selector = TransitionSelector::new(&ctx.available_transitions, &ctx.navigation, &ctx.data);
    assert_eq!(selector.rows(), vec![("Start → In Progress".to_string(), true)]);
    assert_eq!(selector.title(), "Transition Issue: PROJ-123");
    let exec = ExecuteTransitionCommand::new("11".to_string());
    assert_eq!(exec.begin(&ctx), Some(("PROJ-123".to_string(), "11".to_string())));
    exec.finish(&mut ctx, true);
    assert_eq!(ctx.navigation.current_view, AppView::Main);
    assert_eq!(ctx.navigation.focused_pane, FocusedPane::Sprint);
    assert!(ctx.available_transitions.is_empty());
    assert!(ctx.transitioning_issue_key.is_none());
}

#[test]
fn test_refresh_keeps_selection_by_key() {
    let mut ctx = context();
    let mut fresh = AppData::new();
    fresh.board_issues = vec![issue("X-1"), issue("PROJ-123")];
    ctx.apply_refreshed_data(fresh);
    assert_eq!(ctx.data.selected_issue.as_ref().unwrap().key, "PROJ-123");
    ctx.apply_refreshed_data(AppData::new());
    assert!(ctx.data.selected_issue.is_none());
}

#[test]
fn test_refresh_merge() {
    let mut data = AppData::new();
    let sprint = Sprint {
        id: "1".to_string(),
        name: "S".to_string(),
        state: "active".to_string(),
        start_date: None,
        end_date: None,
        issues: vec![issue("S-1")],
    };
    let r = refresh_all_data(&mut data, Ok(Some(sprint)), Ok(vec![issue("L-1")]), Ok(vec![issue("B-1")]));
    assert!(r.is_ok());
    assert_eq!(data.selected_issue.as_ref().unwrap().key, "S-1");
    assert_eq!(data.board_issues[0].key, "B-1");
    let mut data2 = AppData::new();
    let r = refresh_all_data(&mut data2, Ok(None), Err(ApiError::Parse("bad".to_string())), Ok(vec![issue("B-1")]));
    assert_eq!(r.unwrap_err().to_string(), "Parse error: bad");
    assert!(data2.board_issues.is_empty());
    let c = DataManagerConfig::default();
    assert_eq!((c.max_results, c.auto_refresh_interval), (50, Some(300)));
    assert!(c.board().is_none());
}

#[test]
fn test_pane_detail_lines() {
    let i = issue("D-1");
    let d = IssueDetail::with_issue(Some(&i), true);
    let lines = d.lines().unwrap();
    assert_eq!(lines.len(), 25 + 4);
    assert_eq!(lines[0].spans[0].text, "D-1");
    assert_eq!(lines[21].spans[0].text, "1970-01-01 00:00 UTC");
    assert_eq!(lines[26].spans[0].text, "Description:");
    assert_eq!(lines[27].spans[0].text, "line one");
    assert_eq!(lines[28].spans[0].text, "line two");
    let mut blank = issue("D-2");
    blank.description = Some("   ".to_string());
    let d = IssueDetail::with_issue(Some(&blank), false);
    let lines = d.lines().unwrap();
    assert_eq!(lines.last().unwrap().spans[0].text, "No description provided");
}

#[test]
fn test_old_config_and_client() {
    let c = JiraConfig::from_values(None, None, None, None, None);
    assert_eq!(c.max_results, 50);
    assert!(c.board_id.is_none());
    let client = JiraClient::new("https://h".to_string(), "u".to_string(), "t".to_string());
    let req = client.get_recently_updated_issues(10);
    assert_eq!(req.url, "https://h/rest/api/3/search/jql");
    assert_eq!(req.query[1], ("max_results".to_string(), "10".to_string()));
    assert_eq!(client.build_auth_header(), "Basic dTp0");
    assert!(client.get_issue("x").is_none());
}
