use lazyjira::ui::components::issue_detail::{BorderColor, IssueDetail};
use lazyjira::events::KeyCode;
use lazyjira::models::JiraIssue as PaneIssue;
use lazyjira::services::sort::SortMode;
use lazyjira::services::types::{JiraIssue, JiraIssueRef};
use lazyjira::time::Timestamp;
use lazyjira::ui::components::help_popup::{create_help_description_line, create_help_line_normal, format_key_code, help_key_width, help_popup_lines, HelpPopupLine};
use lazyjira::ui::components::issue_item::{truncate_text, IssueItemMode, IssueItemRenderer};
use lazyjira::ui::components::issue_list::icons::PriorityIcons;
use lazyjira::ui::components::issue_list::navigation::{ListAction, ListNavigator};
use lazyjira::ui::components::issue_list::spinner::LoadingSpinner;
use lazyjira::ui::components::issue_list::tabs::{JqlTab, TabAction, TabBar};
use lazyjira::ui::components::issue_list::IssueList;
use lazyjira::ui::components::pane_list::IssueList as PaneList;
use lazyjira::ui::lines::Tone;
use lazyjira::ui::{StatusColor, UI};

fn icons() -> PriorityIcons {
    PriorityIcons::from_glyphs(Some('A'), None, Some('M'), None, None)
}

#[test]
fn test_truncate_text() {
    assert_eq!(truncate_text("hello", 10), "hello");
    assert_eq!(truncate_text("hello", 5), "hello");
    assert_eq!(truncate_text("hello", 4), "hel…");
    assert_eq!(truncate_text("hello", 0), "…");
    assert_eq!(truncate_text("héllo wörld", 6), "héllo…");
}

#[test]
fn test_priority_icons() {
    let i = icons();
    assert_eq!(i.get_icon(Some(&"Highest".to_string())), 'A');
    assert_eq!(i.get_icon(Some(&"HIGH".to_string())), '↑');
    assert_eq!(i.get_icon(Some(&"medium".to_string())), 'M');
    assert_eq!(i.get_icon(Some(&"Low".to_string())), '↓');
    assert_eq!(i.get_icon(Some(&"lowest".to_string())), 'v');
    assert_eq!(i.get_icon(Some(&"urgent".to_string())), '?');
    assert_eq!(i.get_icon(None), '?');
}

#[test]
fn test_issue_row_text() {
    let r = IssueItemRenderer::new(icons());
    let issue = JiraIssue {
        key: "K-1".to_string(),
        summary: "A rather long summary".to_string(),
        status: "Open".to_string(),
        issue_type: "Bug".to_string(),
        priority: Some("High".to_string()),
        ..JiraIssue::default()
    };
    let t = r.render_issue(&issue, IssueItemMode::Full, 20);
    assert_eq!(t.key_part, "[K-1] ");
    assert_eq!(t.summary, "A rather l…");
    assert_eq!(t.details, Some("Bug | Open | ↑ High | N/A".to_string()));
    let s = r.render_issue(&issue, IssueItemMode::Summary, 2);
    assert_eq!(s.summary, "…");
    assert!(s.details.is_none());
    let rf = JiraIssueRef { key: "K-2".to_string(), summary: None, issue_type: None };
    let t = r.render_issue_ref(&rf, IssueItemMode::Full, 80);
    assert_eq!(t.summary, "No summary");
    assert_eq!(t.details, Some("Unknown".to_string()));
}

#[test]
fn test_format_key_code() {
    assert_eq!(format_key_code(&KeyCode::Char('q')), "q");
    assert_eq!(format_key_code(&KeyCode::Enter), "Enter");
    assert_eq!(format_key_code(&KeyCode::Up), "↑");
    assert_eq!(format_key_code(&KeyCode::Right), "→");
    assert_eq!(format_key_code(&KeyCode::F(5)), "F(5)");
    assert_eq!(format_key_code(&KeyCode::Backspace), "Backspace");
}

#[test]
fn test_help_lines() {
    assert_eq!(help_key_width(), 7);
    let l = create_help_line_normal("q".to_string(), "Quit", "Exit", true, 20, 7);
    assert_eq!(l.prefix, "  ");
    assert_eq!(l.padding, " ".repeat(7));
    assert_eq!(l.key_text, "    [q]");
    assert!(l.is_selected);
    let l = create_help_line_normal("↑".to_string(), "Move up", "x", false, 5, 7);
    assert_eq!(l.padding, " ");
    assert_eq!(l.key_text, "    [↑]");
    assert_eq!(create_help_description_line("Exit", false), ("    Exit".to_string(), false));
}

#[test]
fn test_list_navigator() {
    let mut n = ListNavigator::new();
    assert_eq!(n.move_up(0), ListAction::NoChange);
    assert_eq!(n.selected(), None);
    assert_eq!(n.move_down(3, true, false), ListAction::NoChange);
    assert_eq!(n.selected(), Some(0));
    assert_eq!(n.move_down(3, true, false), ListAction::SelectionChanged);
    assert_eq!(n.move_down(3, true, false), ListAction::SelectionChanged);
    assert_eq!(n.move_down(3, true, false), ListAction::RequestMore);
    assert_eq!(n.move_down(3, true, true), ListAction::NoChange);
    assert_eq!(n.move_up(3), ListAction::SelectionChanged);
    assert_eq!(n.selected(), Some(1));
}

#[test]
fn test_tab_bar() {
    let mut t = TabBar::default();
    assert_eq!(t.tabs.len(), 6);
    t.move_left();
    assert_eq!(t.selected_index, 5);
    t.move_right();
    assert_eq!(t.selected_index, 0);
    assert_eq!(t.current_jql(), Some(""));
    assert!(t.select_tab(3));
    assert!(!t.select_tab(6));
    assert_eq!(t.current_tab().unwrap().name, "In Progress");
    let mut e = TabBar::new();
    e.move_left();
    assert_eq!(e.selected_index, 0);
    assert!(e.current_tab().is_none());
    let tab = JqlTab::new("N", "x = 1").with_description("d");
    assert_eq!(tab.description, Some("d".to_string()));
}

#[test]
fn test_issue_list_tabs() {
    let mut l = IssueList::new("T".to_string(), false, SortMode::KeyAsc);
    assert_eq!(l.move_tab_right(), TabAction::NoAction);
    assert_eq!(l.current_jql(), None);
    l.enable_tabs();
    assert_eq!(l.tabs().len(), 6);
    assert_eq!(l.move_tab_right(), TabAction::TabChanged);
    assert_eq!(l.current_jql(), Some("assignee = currentUser()".to_string()));
    l.add_tab(JqlTab::new("Mine", "a = b"));
    assert_eq!(l.tabs().len(), 7);
    assert_eq!(l.title_top_right(), " Assigned · Key ↑ ");
    l.disable_tabs();
    assert_eq!(l.title_top_right(), " Key ↑ ");
    assert_eq!(l.cycle_sort(), ListAction::Sort);
    assert_eq!(l.sort_mode, SortMode::KeyDesc);
}

#[test]
fn test_selection_info_and_spinner() {
    let mut l = IssueList::new("T".to_string(), true, SortMode::KeyAsc);
    assert_eq!(l.selection_info(), " 1/0 ");
    l.is_loading = true;
    l.prepare_draw(true);
    assert!(l.focused);
    assert_eq!(l.spinner.index, 1);
    assert_eq!(l.selection_info(), " ⠙ 1/0 ");
    let mut s = LoadingSpinner::new();
    assert_eq!(s.current_frame(), "⠋");
    for _ in 0..10 {
        s.advance();
    }
    assert_eq!(s.current_frame(), "⠋");
    s.index = usize::MAX;
    s.advance();
    assert_eq!(s.index, 0);
}

fn pane_issue(key: &str) -> PaneIssue {
    PaneIssue {
        key: key.to_string(),
        summary: "sum".to_string(),
        description: None,
        status: "Done".to_string(),
        priority: None,
        assignee: None,
        reporter: None,
        created: Timestamp { secs: 0, nanos: 0 },
        updated: Timestamp { secs: 60, nanos: 0 },
        issue_type: "Task".to_string(),
    }
}

#[test]
fn test_pane_list_rows() {
    let issues = vec![pane_issue("P-1"), pane_issue("P-2")];
    let l = PaneList::new(&issues, "Issues", 1, true);
    let rows = l.rows();
    assert_eq!(rows[0], ("P-1 - sum".to_string(), false));
    assert_eq!(rows[1], ("P-2 - sum".to_string(), true));
    assert_eq!(l.position_text(), "2/2");
    let empty: Vec<PaneIssue> = vec![];
    let e = PaneList::new(&empty, "x", 0, false);
    assert_eq!(e.rows(), vec![("No issues".to_string(), false)]);
}

#[test]
fn test_ui_detail_lines() {
    let issue = pane_issue("P-9");
    let lines = UI::issue_detail_lines(&issue);
    assert_eq!(lines.len(), 20);
    assert_eq!(lines[0].spans[0].text, "Key: ");
    assert_eq!(lines[0].spans[1].text, "P-9");
    assert_eq!(lines[4].spans[1].tone, Tone::Status);
    assert_eq!(lines[8].spans[1].text, "None");
    assert_eq!(lines[14].spans[1].text, "1970-01-01 00:00");
    assert_eq!(lines[16].spans[1].text, "1970-01-01 00:01");
    assert_eq!(lines[19].spans[0].text, "No description available");
    assert_eq!(UI::status_color("Done"), StatusColor::Green);
    assert_eq!(UI::status_color("Waiting"), StatusColor::White);
    assert_eq!(UI::sprint_row(&issue), "P-9: sum [Done]");
    assert_eq!(UI::help_lines().len(), 24);
}

#[test]
fn test_help_popup_lines() {
    let lines = help_popup_lines(16, 60);
    assert_eq!(lines.len(), 71);
    assert_eq!(lines[0], HelpPopupLine::Heading("Global Keybindings:".to_string()));
    assert_eq!(lines[1], HelpPopupLine::Blank);
    match &lines[2] {
        HelpPopupLine::Binding(t) => {
            assert_eq!(t.short_description, "Focus detail");
            assert!(!t.is_selected);
            assert!(t.key_text.ends_with("[Enter]"));
            assert_eq!(t.key_text.chars().count(), help_key_width());
        }
        other => panic!("unexpected {:?}", other),
    }
    assert_eq!(
        lines[3],
        HelpPopupLine::Description("    Switch focus to the detail pane for editing".to_string(), false)
    );
    assert_eq!(lines[4], HelpPopupLine::Blank);
    assert_eq!(lines[50], HelpPopupLine::Blank);
    assert_eq!(lines[51], HelpPopupLine::Heading("Detail View Keybindings:".to_string()));
    match &lines[53] {
        HelpPopupLine::Binding(t) => {
            assert_eq!(t.short_description, "Previous field");
            assert!(t.is_selected);
        }
        other => panic!("unexpected {:?}", other),
    }
    match &lines[54] {
        HelpPopupLine::Description(_, selected) => assert!(*selected),
        other => panic!("unexpected {:?}", other),
    }
}

#[test]
fn test_priority_icon_ignores_ascii_case() {
    let i = icons();
    for (a, b) in [("HIGHEST", "highest"), ("Medium", "mEDIUM"), ("LOW", "low"), ("Other", "OTHER")] {
        assert_eq!(i.get_icon(Some(&a.to_string())), i.get_icon(Some(&b.to_string())));
    }
}

#[test]
fn test_priority_icons_from_loaded_font() {
    let fonts = nerd_fonts::NerdFonts { nf: nerd_fonts::NerdFonts::load() };
    let expected = PriorityIcons::from_glyphs(
        fonts.get("md-chevron_double_up"),
        fonts.get("md-chevron_up"),
        fonts.get("md-equal"),
        fonts.get("md-chevron_down"),
        fonts.get("md-chevron_double_down"),
    );
    assert_eq!(PriorityIcons::from_font(&fonts), expected);
}

#[test]
fn test_detail_pane_placeholders_and_border() {
    let mut d = IssueDetail::new();
    assert_eq!(d.placeholder(), Some("No issue selected"));
    assert_eq!(d.subtasks_placeholder(), None);
    d.set_issue(Some(JiraIssue::default()));
    assert_eq!(d.placeholder(), None);
    assert_eq!(d.subtasks_placeholder(), Some("No subtasks"));
    assert_eq!(IssueDetail::border_color(true), BorderColor::Cyan);
    assert_eq!(IssueDetail::border_color(false), BorderColor::White);
}
