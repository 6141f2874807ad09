//! The key bindings of the application: what each key does in the lists and in the
//! detail pane, with the descriptions that the help shows.
use vstd::prelude::*;
use crate::events::KeyCode;

verus! {

/// What a key does outside the detail pane.
#[derive(Debug, Clone, Copy, PartialEq, Eq, Hash, Structural)]
pub enum GlobalAction {
    Quit,
    Search,
    Help,
    Esc,
    TabNext,
    TabPrev,
    Up,
    Down,
    Left,
    Right,
    CycleSort,
    Enter,
}

/// What a key does in the focused detail pane.
#[derive(Debug, Clone, Copy, PartialEq, Eq, Hash, Structural)]
pub enum DetailAction {
    Up,
    Down,
    Edit,
    Esc,
}

/// A key bound to an action outside the detail pane.
#[derive(Debug, Clone, Copy)]
pub struct GlobalKeyBind {
    pub key: KeyCode,
    pub action: GlobalAction,
    pub short_description: &'static str,
    pub description: &'static str,
}

/// A key bound to an action in the detail pane.
#[derive(Debug, Clone, Copy)]
pub struct DetailKeyBind {
    pub key: KeyCode,
    pub action: DetailAction,
    pub short_description: &'static str,
    pub description: &'static str,
}

/// The key of binding `i` of the global table.
pub open spec fn global_key(i: int) -> KeyCode {
    if i == 0 {
        KeyCode::Enter
    } else if i == 1 {
        KeyCode::Char('?')
    } else if i == 2 {
        KeyCode::Char('q')
    } else if i == 3 {
        KeyCode::Char('/')
    } else if i == 4 {
        KeyCode::Esc
    } else if i == 5 {
        KeyCode::Char(']')
    } else if i == 6 {
        KeyCode::Char('[')
    } else if i == 7 {
        KeyCode::Char('s')
    } else if i == 8 {
        KeyCode::Up
    } else if i == 9 {
        KeyCode::Char('k')
    } else if i == 10 {
        KeyCode::Down
    } else if i == 11 {
        KeyCode::Char('j')
    } else if i == 12 {
        KeyCode::Left
    } else if i == 13 {
        KeyCode::Char('h')
    } else if i == 14 {
        KeyCode::Right
    } else {
        KeyCode::Char('l')
    }
}

/// The action of binding `i` of the global table.
pub open spec fn global_action(i: int) -> GlobalAction {
    if i == 0 {
        GlobalAction::Enter
    } else if i == 1 {
        GlobalAction::Help
    } else if i == 2 {
        GlobalAction::Quit
    } else if i == 3 {
        GlobalAction::Search
    } else if i == 4 {
        GlobalAction::Esc
    } else if i == 5 {
        GlobalAction::TabNext
    } else if i == 6 {
        GlobalAction::TabPrev
    } else if i == 7 {
        GlobalAction::CycleSort
    } else if i == 8 {
        GlobalAction::Up
    } else if i == 9 {
        GlobalAction::Up
    } else if i == 10 {
        GlobalAction::Down
    } else if i == 11 {
        GlobalAction::Down
    } else if i == 12 {
        GlobalAction::Left
    } else if i == 13 {
        GlobalAction::Left
    } else if i == 14 {
        GlobalAction::Right
    } else {
        GlobalAction::Right
    }
}

/// The short description of binding `i` of the global table.
pub open spec fn global_short(i: int) -> Seq<char> {
    if i == 0 {
        "Focus detail"@
    } else if i == 1 {
        "Help"@
    } else if i == 2 {
        "Quit"@
    } else if i == 3 {
        "Search"@
    } else if i == 4 {
        "Cancel/Exit"@
    } else if i == 5 {
        "Next tab"@
    } else if i == 6 {
        "Previous tab"@
    } else if i == 7 {
        "Sort"@
    } else if i == 8 {
        "Move up"@
    } else if i == 9 {
        "Move up"@
    } else if i == 10 {
        "Move down"@
    } else if i == 11 {
        "Move down"@
    } else if i == 12 {
        "Focus left"@
    } else if i == 13 {
        "Focus left"@
    } else if i == 14 {
        "Focus right"@
    } else {
        "Focus right"@
    }
}

/// The description of binding `i` of the global table.
pub open spec fn global_long(i: int) -> Seq<char> {
    if i == 0 {
        "Switch focus to the detail pane for editing"@
    } else if i == 1 {
        "Open this help menu with keybind reference"@
    } else if i == 2 {
        "Exit the application completely"@
    } else if i == 3 {
        "Enter search mode to filter issues"@
    } else if i == 4 {
        "Cancel current operation or exit search mode"@
    } else if i == 5 {
        "Switch to the next tab in the current view"@
    } else if i == 6 {
        "Switch to the previous tab in the current view"@
    } else if i == 7 {
        "Cycle through available sorting options"@
    } else if i == 8 {
        "Move selection up in the current list"@
    } else if i == 9 {
        "Move selection up in the current list (vim-style)"@
    } else if i == 10 {
        "Move selection down in the current list"@
    } else if i == 11 {
        "Move selection down in the current list (vim-style)"@
    } else if i == 12 {
        "Move focus to the left panel"@
    } else if i == 13 {
        "Move focus to the left panel (vim-style)"@
    } else if i == 14 {
        "Move focus to the right panel"@
    } else {
        "Move focus to the right panel (vim-style)"@
    }
}

/// The action of the first binding of the global table from `i` on whose key is `k`.
pub open spec fn global_first(k: KeyCode, i: int) -> Option<GlobalAction>
    decreases 16 - i,
{
    if i < 0 || i >= 16 {
        None
    } else if global_key(i) == k {
        Some(global_action(i))
    } else {
        global_first(k, i + 1)
    }
}

/// The action that the global table binds to `k`: that of its first binding for `k`.
pub open spec fn global_action_of(k: KeyCode) -> Option<GlobalAction> {
    global_first(k, 0)
}

/// The global key bindings, in order.
pub fn global_keybinds() -> (r: Vec<GlobalKeyBind>)
    ensures
        r@.len() == 16,
        forall|i: int| 0 <= i < 16 ==> (#[trigger] r@[i]).key == global_key(i) && r@[i].action == global_action(i)
            && r@[i].short_description@ == global_short(i) && r@[i].description@ == global_long(i),
{
    let mut v: Vec<GlobalKeyBind> = Vec::new();
    v.push(GlobalKeyBind { key: KeyCode::Enter, action: GlobalAction::Enter, short_description: "Focus detail", description: "Switch focus to the detail pane for editing" });
    v.push(GlobalKeyBind { key: KeyCode::Char('?'), action: GlobalAction::Help, short_description: "Help", description: "Open this help menu with keybind reference" });
    v.push(GlobalKeyBind { key: KeyCode::Char('q'), action: GlobalAction::Quit, short_description: "Quit", description: "Exit the application completely" });
    v.push(GlobalKeyBind { key: KeyCode::Char('/'), action: GlobalAction::Search, short_description: "Search", description: "Enter search mode to filter issues" });
    v.push(GlobalKeyBind { key: KeyCode::Esc, action: GlobalAction::Esc, short_description: "Cancel/Exit", description: "Cancel current operation or exit search mode" });
    v.push(GlobalKeyBind { key: KeyCode::Char(']'), action: GlobalAction::TabNext, short_description: "Next tab", description: "Switch to the next tab in the current view" });
    v.push(GlobalKeyBind { key: KeyCode::Char('['), action: GlobalAction::TabPrev, short_description: "Previous tab", description: "Switch to the previous tab in the current view" });
    v.push(GlobalKeyBind { key: KeyCode::Char('s'), action: GlobalAction::CycleSort, short_description: "Sort", description: "Cycle through available sorting options" });
    v.push(GlobalKeyBind { key: KeyCode::Up, action: GlobalAction::Up, short_description: "Move up", description: "Move selection up in the current list" });
    v.push(GlobalKeyBind { key: KeyCode::Char('k'), action: GlobalAction::Up, short_description: "Move up", description: "Move selection up in the current list (vim-style)" });
    v.push(GlobalKeyBind { key: KeyCode::Down, action: GlobalAction::Down, short_description: "Move down", description: "Move selection down in the current list" });
    v.push(GlobalKeyBind { key: KeyCode::Char('j'), action: GlobalAction::Down, short_description: "Move down", description: "Move selection down in the current list (vim-style)" });
    v.push(GlobalKeyBind { key: KeyCode::Left, action: GlobalAction::Left, short_description: "Focus left", description: "Move focus to the left panel" });
    v.push(GlobalKeyBind { key: KeyCode::Char('h'), action: GlobalAction::Left, short_description: "Focus left", description: "Move focus to the left panel (vim-style)" });
    v.push(GlobalKeyBind { key: KeyCode::Right, action: GlobalAction::Right, short_description: "Focus right", description: "Move focus to the right panel" });
    v.push(GlobalKeyBind { key: KeyCode::Char('l'), action: GlobalAction::Right, short_description: "Focus right", description: "Move focus to the right panel (vim-style)" });
    v
}

/// The action bound to `code` by the global table: that of the first binding for it.
pub fn find_global(code: KeyCode) -> (r: Option<GlobalAction>)
    ensures
        r == global_action_of(code),
{
    let table = global_keybinds();
    let mut i: usize = 0;
    while i < table.len()
        invariant
            table@.len() == 16,
            i <= 16,
            forall|j: int| 0 <= j < 16 ==> (#[trigger] table@[j]).key == global_key(j) && table@[j].action == global_action(j),
            global_first(code, 0) == global_first(code, i as int),
        decreases table.len() - i,
    {
        if table[i].key == code {
            return Some(table[i].action);
        }
        i = i + 1;
    }
    None
}

/// The key of binding `i` of the detail table.
pub open spec fn detail_key(i: int) -> KeyCode {
    if i == 0 {
        KeyCode::Up
    } else if i == 1 {
        KeyCode::Char('k')
    } else if i == 2 {
        KeyCode::Down
    } else if i == 3 {
        KeyCode::Char('j')
    } else if i == 4 {
        KeyCode::Char('e')
    } else {
        KeyCode::Esc
    }
}

/// The action of binding `i` of the detail table.
pub open spec fn detail_action(i: int) -> DetailAction {
    if i == 0 {
        DetailAction::Up
    } else if i == 1 {
        DetailAction::Up
    } else if i == 2 {
        DetailAction::Down
    } else if i == 3 {
        DetailAction::Down
    } else if i == 4 {
        DetailAction::Edit
    } else {
        DetailAction::Esc
    }
}

/// The short description of binding `i` of the detail table.
pub open spec fn detail_short(i: int) -> Seq<char> {
    if i == 0 {
        "Previous field"@
    } else if i == 1 {
        "Previous field"@
    } else if i == 2 {
        "Next field"@
    } else if i == 3 {
        "Next field"@
    } else if i == 4 {
        "Edit"@
    } else {
        "Exit/Cancel"@
    }
}

/// The description of binding `i` of the detail table.
pub open spec fn detail_long(i: int) -> Seq<char> {
    if i == 0 {
        "Navigate to the previous field in detail view"@
    } else if i == 1 {
        "Navigate to the previous field in detail view (vim-style)"@
    } else if i == 2 {
        "Navigate to the next field in detail view"@
    } else if i == 3 {
        "Navigate to the next field in detail view (vim-style)"@
    } else if i == 4 {
        "Enter edit mode for the current field"@
    } else {
        "Exit edit mode or return focus to issue list"@
    }
}

/// The action of the first binding of the detail table from `i` on whose key is `k`.
pub open spec fn detail_first(k: KeyCode, i: int) -> Option<DetailAction>
    decreases 6 - i,
{
    if i < 0 || i >= 6 {
        None
    } else if detail_key(i) == k {
        Some(detail_action(i))
    } else {
        detail_first(k, i + 1)
    }
}

/// The action that the detail table binds to `k`: that of its first binding for `k`.
pub open spec fn detail_action_of(k: KeyCode) -> Option<DetailAction> {
    detail_first(k, 0)
}

/// The detail key bindings, in order.
pub fn detail_keybinds() -> (r: Vec<DetailKeyBind>)
    ensures
        r@.len() == 6,
        forall|i: int| 0 <= i < 6 ==> (#[trigger] r@[i]).key == detail_key(i) && r@[i].action == detail_action(i)
            && r@[i].short_description@ == detail_short(i) && r@[i].description@ == detail_long(i),
{
    let mut v: Vec<DetailKeyBind> = Vec::new();
    v.push(DetailKeyBind { key: KeyCode::Up, action: DetailAction::Up, short_description: "Previous field", description: "Navigate to the previous field in detail view" });
    v.push(DetailKeyBind { key: KeyCode::Char('k'), action: DetailAction::Up, short_description: "Previous field", description: "Navigate to the previous field in detail view (vim-style)" });
    v.push(DetailKeyBind { key: KeyCode::Down, action: DetailAction::Down, short_description: "Next field", description: "Navigate to the next field in detail view" });
    v.push(DetailKeyBind { key: KeyCode::Char('j'), action: DetailAction::Down, short_description: "Next field", description: "Navigate to the next field in detail view (vim-style)" });
    v.push(DetailKeyBind { key: KeyCode::Char('e'), action: DetailAction::Edit, short_description: "Edit", description: "Enter edit mode for the current field" });
    v.push(DetailKeyBind { key: KeyCode::Esc, action: DetailAction::Esc, short_description: "Exit/Cancel", description: "Exit edit mode or return focus to issue list" });
    v
}

/// The action bound to `code` by the detail table: that of the first binding for it.
pub fn find_detail(code: KeyCode) -> (r: Option<DetailAction>)
    ensures
        r == detail_action_of(code),
{
    let table = detail_keybinds();
    let mut i: usize = 0;
    while i < table.len()
        invariant
            table@.len() == 6,
            i <= 6,
            forall|j: int| 0 <= j < 6 ==> (#[trigger] table@[j]).key == detail_key(j) && table@[j].action == detail_action(j),
            detail_first(code, 0) == detail_first(code, i as int),
        decreases table.len() - i,
    {
        if table[i].key == code {
            return Some(table[i].action);
        }
        i = i + 1;
    }
    None
}

} // verus!
