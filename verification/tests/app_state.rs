use lazyjira::app::actions::AppAction;
use lazyjira::app::messages::AppMessage;
use lazyjira::app::navigator::{ActiveList, Navigator};
use lazyjira::app::state::App;
use lazyjira::app::update::{DetailRequest, Effect, FetchRequest, detail_outcome_message, fetch_outcome_message, fetch_sort};
use lazyjira::services::error::ApiError;
use lazyjira::events::{AppEvent, KeyCode};
use lazyjira::services::sort::SortMode;
use lazyjira::services::types::{JiraIssue, Paginated};
use lazyjira::ui::components::issue_detail::DetailField;

fn issue(key: &str) -> JiraIssue {
    JiraIssue { key: key.to_string(), summary: format!("summary of {}", key), ..JiraIssue::default() }
}

fn page(keys: &[&str], page: usize) -> Paginated<JiraIssue> {
    let mut p = Paginated::new();
    p.items = keys.iter().map(|k| issue(k)).collect();
    p.page = page;
    p
}

fn key(c: char) -> AppEvent {
    AppEvent::Key(KeyCode::Char(c))
}

fn loaded_app() -> App {
    let mut app = App::new();
    let line = app.update_from_message(AppMessage::ItemsLoaded {
        list: ActiveList::Sprint,
        result: page(&["A-1", "A-2"], 0),
        append: false,
    });
    assert_eq!(line, None);
    app
}

#[test]
fn test_new_app() {
    let app = App::new();
    assert_eq!(app.navigator.active, ActiveList::Sprint);
    assert_eq!(app.items_sprint.title, "Sprint Issues");
    assert_eq!(app.items_sprint.sort_mode, SortMode::PriorityDesc);
    assert!(app.items_sprint.tabs_enabled);
    assert_eq!(app.items_sprint.tabs().len(), 4);
    assert_eq!(app.items_sprint.current_jql(), Some("assignee = currentUser()".to_string()));
    assert_eq!(app.items_backlog.sort_mode, SortMode::KeyDesc);
    assert!(app.items_recently_updated.summary_mode);
    assert!(!app.search_mode && !app.should_quit && !app.show_help);
}

#[test]
fn test_tick_changes_nothing() {
    let mut app = App::new();
    let r = app.handle_event(AppEvent::Tick);
    assert!(r.0.is_none() && r.1.is_none());
}

#[test]
fn test_quit_key() {
    let mut app = App::new();
    let (action, effect) = app.handle_event(key('q'));
    assert_eq!(action, Some(AppAction::Quit));
    assert!(effect.is_none());
    assert_eq!(app.apply_action(AppAction::Quit).is_none(), true);
    assert!(app.should_quit);
}

#[test]
fn test_search_mode_edits_until_esc() {
    let mut app = App::new();
    app.handle_event(key('/'));
    assert!(app.search_mode);
    assert_eq!(app.search_query, "");
    app.handle_event(key('a'));
    app.handle_event(key('q'));
    assert_eq!(app.search_query, "aq");
    app.handle_event(AppEvent::Key(KeyCode::Backspace));
    assert_eq!(app.search_query, "a");
    let r = app.handle_event(AppEvent::Key(KeyCode::Esc));
    assert!(r.0.is_none() && r.1.is_none());
    assert!(!app.search_mode);
    assert_eq!(app.search_query, "a");
}

#[test]
fn test_first_page_selects_first_row() {
    let app = loaded_app();
    assert_eq!(app.items_sprint.state_selected(), Some(0));
    assert_eq!(app.items_sprint.result.page, 1);
    assert!(app.items_sprint.result.has_more);
    assert!(!app.items_sprint.is_loading);
}

#[test]
fn test_down_fetches_detail_then_more() {
    let mut app = loaded_app();
    let (_, effect) = app.handle_event(key('j'));
    assert_eq!(app.items_sprint.state_selected(), Some(1));
    match effect {
        Some(Effect::FetchDetail(d)) => {
            assert_eq!(d.key, "A-2");
            assert_eq!(d.list, ActiveList::Sprint);
        }
        _ => panic!("expected a detail fetch"),
    }
    let (_, effect) = app.handle_event(AppEvent::Key(KeyCode::Down));
    assert_eq!(app.items_sprint.state_selected(), Some(1));
    match effect {
        Some(Effect::FetchIssues(q)) => {
            assert!(q.append);
            assert_eq!(q.page, 1);
            assert_eq!(q.sort, SortMode::PriorityDesc);
            assert_eq!(q.filter, Some("assignee = currentUser()".to_string()));
        }
        _ => panic!("expected a page fetch"),
    }
    assert!(app.items_sprint.is_loading);
    let (_, effect) = app.handle_event(key('j'));
    assert!(effect.is_none());
}

#[test]
fn test_appended_page_grows_the_list() {
    let mut app = loaded_app();
    app.update_from_message(AppMessage::ItemsLoaded {
        list: ActiveList::Sprint,
        result: page(&["A-3"], 7),
        append: true,
    });
    assert_eq!(app.items_sprint.result.items.len(), 3);
    assert_eq!(app.items_sprint.result.items[2].key, "A-3");
    assert_eq!(app.items_sprint.result.page, 2);
}

#[test]
fn test_empty_page_ends_the_list() {
    let mut app = loaded_app();
    app.update_from_message(AppMessage::ItemsLoaded { list: ActiveList::Sprint, result: page(&[], 0), append: true });
    assert!(!app.items_sprint.result.has_more);
    assert_eq!(app.items_sprint.result.items.len(), 2);
}

#[test]
fn test_tab_change_fetches_anew_once() {
    let mut app = App::new();
    let (_, effect) = app.handle_event(key(']'));
    match effect {
        Some(Effect::FetchIssues(q)) => {
            assert!(!q.append);
            assert_eq!(q.page, 0);
            assert_eq!(q.filter, Some("status=\"In Progress\"".to_string()));
        }
        _ => panic!("expected a page fetch"),
    }
    let (_, effect) = app.handle_event(key(']'));
    assert!(effect.is_none());
    assert_eq!(app.items_sprint.tab_bar.selected_index, 2);
    app.handle_event(key('['));
    app.handle_event(key('['));
    app.handle_event(key('['));
    assert_eq!(app.items_sprint.tab_bar.selected_index, 3);
}

#[test]
fn test_tabs_off_list_ignores_tab_keys() {
    let mut app = App::new();
    app.handle_event(key('l'));
    assert_eq!(app.navigator.active, ActiveList::RecentlyUpdated);
    let (_, effect) = app.handle_event(key(']'));
    assert!(effect.is_none());
    assert!(!app.items_recently_updated.is_loading);
}

#[test]
fn test_sort_key_cycles_and_fetches() {
    let mut app = App::new();
    let (_, effect) = app.handle_event(key('s'));
    assert_eq!(app.items_sprint.sort_mode, SortMode::KeyAsc);
    match effect {
        Some(Effect::FetchIssues(q)) => assert_eq!(q.sort, SortMode::KeyAsc),
        _ => panic!("expected a page fetch"),
    }
}

#[test]
fn test_list_moves_stop_at_the_ends() {
    let mut app = App::new();
    app.handle_event(AppEvent::Key(KeyCode::Left));
    assert_eq!(app.navigator.active, ActiveList::Sprint);
    app.handle_event(AppEvent::Key(KeyCode::Right));
    app.handle_event(AppEvent::Key(KeyCode::Right));
    app.handle_event(AppEvent::Key(KeyCode::Right));
    assert_eq!(app.navigator.active, ActiveList::Backlog);
}

#[test]
fn test_detail_pane_keys() {
    let mut app = loaded_app();
    app.handle_event(AppEvent::Key(KeyCode::Enter));
    assert!(app.detail_view.focused);
    app.handle_event(key('j'));
    assert_eq!(app.detail_view.selected_field, DetailField::Summary);
    assert_eq!(app.items_sprint.state_selected(), Some(0));
    app.handle_event(key('e'));
    assert!(app.detail_view.edit_mode);
    app.handle_event(AppEvent::Key(KeyCode::Esc));
    assert!(!app.detail_view.edit_mode);
    assert!(app.detail_view.focused);
    app.handle_event(AppEvent::Key(KeyCode::Esc));
    assert!(!app.detail_view.focused);
}

#[test]
fn test_help_key_toggles_help() {
    let mut app = App::new();
    app.handle_event(key('?'));
    assert!(app.show_help);
    app.handle_event(key('?'));
    assert!(!app.show_help);
}

#[test]
fn test_error_message_line() {
    let mut app = App::new();
    app.items_backlog.is_loading = true;
    let line = app.update_from_message(AppMessage::Error { list: ActiveList::Backlog, message: "boom".to_string() });
    assert_eq!(line, Some("Error for Backlog: boom".to_string()));
    assert!(!app.items_backlog.is_loading);
}

#[test]
fn test_sorted_page_replaces_items() {
    let mut app = loaded_app();
    app.update_from_message(AppMessage::ItemsSorted { list: ActiveList::Sprint, result: page(&["B-1"], 9) });
    assert_eq!(app.items_sprint.result.items.len(), 1);
    assert_eq!(app.items_sprint.result.page, 1);
    assert!(app.items_sprint.result.has_more);
}

#[test]
fn test_detail_loaded_is_shown() {
    let mut app = App::new();
    app.detail_view.selected_field = DetailField::Parent;
    app.update_from_message(AppMessage::ItemDetailLoaded { item: issue("D-1") });
    assert_eq!(app.detail_view.issue.as_ref().map(|i| i.key.clone()), Some("D-1".to_string()));
    assert_eq!(app.detail_view.selected_field, DetailField::Key);
}

#[test]
fn test_load_items_action() {
    let mut app = loaded_app();
    match app.apply_action(AppAction::LoadItems) {
        Some(Effect::FetchIssues(q)) => {
            assert!(q.append);
            assert_eq!(q.page, 1);
        }
        _ => panic!("expected a page fetch"),
    }
    assert!(app.loading);
    assert!(app.apply_action(AppAction::LoadItems).is_none());
}

#[test]
fn test_initial_result_and_filters() {
    let mut app = App::new();
    let filters = app.initial_filters();
    assert_eq!(filters[0], (ActiveList::Sprint, Some("assignee = currentUser()".to_string())));
    assert_eq!(filters[1], (ActiveList::RecentlyUpdated, None));
    let effect = app.apply_initial_result(ActiveList::Sprint, page(&["C-1"], 0));
    match effect {
        Some(Effect::FetchDetail(d)) => assert_eq!(d.key, "C-1"),
        _ => panic!("expected a detail fetch"),
    }
    assert_eq!(app.items_sprint.result.page, 1);
}

#[test]
fn test_default_sorts() {
    assert_eq!(fetch_sort(ActiveList::Sprint, None), SortMode::PriorityDesc);
    assert_eq!(fetch_sort(ActiveList::RecentlyUpdated, None), SortMode::UpdatedDesc);
    assert_eq!(fetch_sort(ActiveList::Backlog, None), SortMode::KeyDesc);
    assert_eq!(fetch_sort(ActiveList::Backlog, Some(SortMode::KeyAsc)), SortMode::KeyAsc);
}

#[test]
fn test_navigator_moves() {
    let mut n = Navigator::new();
    n.move_right();
    assert_eq!(n.active, ActiveList::RecentlyUpdated);
    n.move_left();
    assert_eq!(n.active, ActiveList::Sprint);
}

#[test]
fn test_list_focus() {
    let mut app = App::new();
    assert!(app.is_list_focused(ActiveList::Sprint));
    assert!(!app.is_list_focused(ActiveList::Backlog));
    app.detail_view.focused = true;
    assert!(!app.is_list_focused(ActiveList::Sprint));
}

fn request(append: bool) -> FetchRequest {
    FetchRequest { list: ActiveList::Backlog, sort: SortMode::KeyDesc, filter: None, page: 2, append }
}

#[test]
fn test_fetch_outcome_messages() {
    match fetch_outcome_message(&request(true), Ok(page(&["B-1"], 2))) {
        AppMessage::ItemsLoaded { list, result, append } => {
            assert_eq!(list, ActiveList::Backlog);
            assert!(append);
            assert_eq!(result.items.len(), 1);
            assert_eq!(result.items[0].key, "B-1");
        }
        other => panic!("unexpected {:?}", other),
    }
    match fetch_outcome_message(&request(false), Ok(page(&["B-2", "B-3"], 0))) {
        AppMessage::ItemsSorted { list, result } => {
            assert_eq!(list, ActiveList::Backlog);
            assert_eq!(result.items.len(), 2);
        }
        other => panic!("unexpected {:?}", other),
    }
    match fetch_outcome_message(&request(true), Err(ApiError::Network("down".to_string()))) {
        AppMessage::Error { list, message } => {
            assert_eq!(list, ActiveList::Backlog);
            assert_eq!(message, "Network error: down");
        }
        other => panic!("unexpected {:?}", other),
    }
}

#[test]
fn test_detail_outcome_messages() {
    let req = DetailRequest { list: ActiveList::Sprint, key: "A-1".to_string() };
    match detail_outcome_message(&req, Ok(issue("A-1"))) {
        AppMessage::ItemDetailLoaded { item } => assert_eq!(item.key, "A-1"),
        other => panic!("unexpected {:?}", other),
    }
    match detail_outcome_message(&req, Err(ApiError::Http { status: 404, message: "gone".to_string() })) {
        AppMessage::Error { list, message } => {
            assert_eq!(list, ActiveList::Sprint);
            assert_eq!(message, "HTTP error 404: gone");
        }
        other => panic!("unexpected {:?}", other),
    }
}
