//! The text of the keybinding help: each key's name, the width of the key column, and
//! the lines that list a binding and its description.
use vstd::prelude::*;
use vstd::utf8::encode_utf8;
use crate::app::keybinds::{
    detail_key, detail_keybinds, detail_long, detail_short, global_key, global_keybinds, global_long,
    global_short,
};
use crate::events::KeyCode;
use crate::text::{concat2, concat3, decimal_seq, push_char, repeat_seq, repeat_str, u64_to_decimal};

verus! {

/// The name of a key as the help shows it: a character as itself, arrows as arrows,
/// function keys as `F(n)`, and any other key by its name.
pub open spec fn key_name(k: KeyCode) -> Seq<char> {
    match k {
        KeyCode::Char(c) => seq![c],
        KeyCode::F(n) => "F("@ + decimal_seq(n as nat) + ")"@,
        KeyCode::Backspace => "Backspace"@,
        KeyCode::Enter => "Enter"@,
        KeyCode::Left => "←"@,
        KeyCode::Right => "→"@,
        KeyCode::Up => "↑"@,
        KeyCode::Down => "↓"@,
        KeyCode::Home => "Home"@,
        KeyCode::End => "End"@,
        KeyCode::PageUp => "PageUp"@,
        KeyCode::PageDown => "PageDown"@,
        KeyCode::Tab => "Tab"@,
        KeyCode::BackTab => "BackTab"@,
        KeyCode::Delete => "Delete"@,
        KeyCode::Insert => "Insert"@,
        KeyCode::Null => "Null"@,
        KeyCode::Esc => "Esc"@,
        KeyCode::CapsLock => "CapsLock"@,
        KeyCode::ScrollLock => "ScrollLock"@,
        KeyCode::NumLock => "NumLock"@,
        KeyCode::PrintScreen => "PrintScreen"@,
        KeyCode::Pause => "Pause"@,
        KeyCode::Menu => "Menu"@,
        KeyCode::KeypadBegin => "KeypadBegin"@,
        KeyCode::Other => "Other"@,
    }
}

/// The name of a key.
pub fn format_key_code(key: &KeyCode) -> (r: String)
    ensures
        r@ == key_name(*key),
{
    match key {
        KeyCode::Char(c) => {
            let mut s = String::new();
            push_char(&mut s, *c);
            s
        },
        KeyCode::F(n) => {
            let d = u64_to_decimal(*n as u64);
            concat3("F(", d.as_str(), ")")
        },
        KeyCode::Backspace => "Backspace".to_string(),
        KeyCode::Enter => "Enter".to_string(),
        KeyCode::Left => "←".to_string(),
        KeyCode::Right => "→".to_string(),
        KeyCode::Up => "↑".to_string(),
        KeyCode::Down => "↓".to_string(),
        KeyCode::Home => "Home".to_string(),
        KeyCode::End => "End".to_string(),
        KeyCode::PageUp => "PageUp".to_string(),
        KeyCode::PageDown => "PageDown".to_string(),
        KeyCode::Tab => "Tab".to_string(),
        KeyCode::BackTab => "BackTab".to_string(),
        KeyCode::Delete => "Delete".to_string(),
        KeyCode::Insert => "Insert".to_string(),
        KeyCode::Null => "Null".to_string(),
        KeyCode::Esc => "Esc".to_string(),
        KeyCode::CapsLock => "CapsLock".to_string(),
        KeyCode::ScrollLock => "ScrollLock".to_string(),
        KeyCode::NumLock => "NumLock".to_string(),
        KeyCode::PrintScreen => "PrintScreen".to_string(),
        KeyCode::Pause => "Pause".to_string(),
        KeyCode::Menu => "Menu".to_string(),
        KeyCode::KeypadBegin => "KeypadBegin".to_string(),
        KeyCode::Other => "Other".to_string(),
    }
}

/// The bytes that `[name]` takes, which is how wide the help counts a key.
pub open spec fn key_width(k: KeyCode) -> nat {
    encode_utf8("["@ + key_name(k) + "]"@).len()
}

/// Whether `w` is the widest key of both binding tables.
pub open spec fn is_widest_key(w: usize) -> bool {
    &&& forall|i: int| 0 <= i < 16 ==> key_width(#[trigger] global_key(i)) <= w
    &&& forall|i: int| 0 <= i < 6 ==> key_width(#[trigger] detail_key(i)) <= w
    &&& (exists|i: int| 0 <= i < 16 && key_width(#[trigger] global_key(i)) == w) || (exists|i: int|
        0 <= i < 6 && key_width(#[trigger] detail_key(i)) == w)
}

/// The byte length of `[name]` for key `k`.
fn key_width_of(k: &KeyCode) -> (r: usize)
    ensures
        r == key_width(*k),
{
    let name = format_key_code(k);
    let text = concat3("[", name.as_str(), "]");
    text.as_str().as_bytes_vec().len()
}

/// The width of the key column of the help: the widest `[key]` of both tables.
pub fn help_key_width() -> (r: usize)
    ensures
        is_widest_key(r),
{
    let global = global_keybinds();
    let detail = detail_keybinds();
    let mut w: usize = key_width_of(&global[0].key);
    let mut i: usize = 1;
    while i < global.len()
        invariant
            global@.len() == 16,
            forall|j: int| 0 <= j < 16 ==> (#[trigger] global@[j]).key == global_key(j),
            1 <= i <= 16,
            forall|j: int| 0 <= j < i ==> key_width(#[trigger] global_key(j)) <= w,
            exists|j: int| 0 <= j < i && key_width(#[trigger] global_key(j)) == w,
        decreases global.len() - i,
    {
        let k = key_width_of(&global[i].key);
        if k > w {
            w = k;
        }
        i = i + 1;
    }
    let mut j: usize = 0;
    while j < detail.len()
        invariant
            detail@.len() == 6,
            forall|m: int| 0 <= m < 6 ==> (#[trigger] detail@[m]).key == detail_key(m),
            j <= 6,
            forall|m: int| 0 <= m < 16 ==> key_width(#[trigger] global_key(m)) <= w,
            forall|m: int| 0 <= m < j ==> key_width(#[trigger] detail_key(m)) <= w,
            (exists|m: int| 0 <= m < 16 && key_width(#[trigger] global_key(m)) == w) || (exists|m: int|
                0 <= m < j && key_width(#[trigger] detail_key(m)) == w),
        decreases detail.len() - j,
    {
        let k = key_width_of(&detail[j].key);
        if k > w {
            w = k;
        }
        j = j + 1;
    }
    w
}

/// `s` padded on the left with spaces to `width` characters (`{:>width$}`).
pub open spec fn pad_left(s: Seq<char>, width: nat) -> Seq<char> {
    if s.len() < width {
        repeat_seq(" "@, (width - s.len()) as nat) + s
    } else {
        s
    }
}

/// The spaces between a binding's short description and its key: enough to push the key
/// to the right edge, and at least one.
pub open spec fn help_padding(short_desc_bytes: nat, available_width: nat, max_key_width: nat) -> Seq<char> {
    let used = 2 + short_desc_bytes + max_key_width;
    if used < available_width {
        repeat_seq(" "@, (available_width - used) as nat)
    } else {
        " "@
    }
}

/// The text of one help line: an indent, the short description, padding, and the key
/// right-aligned in its column; a selected line is highlighted.
#[derive(Debug, Clone, PartialEq)]
pub struct HelpLineText {
    pub prefix: String,
    pub short_description: String,
    pub padding: String,
    pub key_text: String,
    pub is_selected: bool,
}

/// The line that lists one binding.
pub fn create_help_line_normal(
    key: String,
    short_desc: &str,
    long_desc: &str,
    is_selected: bool,
    available_width: usize,
    max_key_width: usize,
) -> (r: HelpLineText)
    requires
        2 + encode_utf8(short_desc@).len() + max_key_width <= usize::MAX,
    ensures
        r.prefix@ == "  "@,
        r.short_description@ == short_desc@,
        r.padding@ == help_padding(encode_utf8(short_desc@).len(), available_width as nat, max_key_width as nat),
        r.key_text@ == pad_left("["@ + key@ + "]"@, max_key_width as nat),
        r.is_selected == is_selected,
{
    let key_text = concat3("[", key.as_str(), "]");
    let chars = key_text.as_str().unicode_len();
    let key_text_padded = if chars < max_key_width {
        let mut p = repeat_str(" ", max_key_width - chars);
        p.append(key_text.as_str());
        p
    } else {
        key_text
    };
    let short_bytes = short_desc.as_bytes_vec().len();
    let used_width = 2 + short_bytes + max_key_width;
    let padding = if used_width < available_width {
        repeat_str(" ", available_width - used_width)
    } else {
        " ".to_string()
    };
    HelpLineText {
        prefix: "  ".to_string(),
        short_description: short_desc.to_string(),
        padding,
        key_text: key_text_padded,
        is_selected,
    }
}

/// The line under a binding that gives its description, indented by four spaces.
pub fn create_help_description_line(long_desc: &str, is_selected: bool) -> (r: (String, bool))
    ensures
        r.0@ == "    "@ + long_desc@,
        r.1 == is_selected,
{
    (concat2("    ", long_desc), is_selected)
}

/// A character takes at most four bytes in UTF-8.
proof fn lemma_utf8_len_bound(s: Seq<char>)
    ensures
        encode_utf8(s).len() <= 4 * s.len(),
    decreases s.len(),
{
    if s.len() > 0 {
        lemma_utf8_len_bound(s.drop_first());
    }
}

/// The keys and short descriptions of both tables are short: none takes more than 64
/// bytes.
proof fn lemma_table_widths()
    ensures
        forall|i: int| 0 <= i < 16 ==> #[trigger] key_width(global_key(i)) <= 64,
        forall|i: int| 0 <= i < 6 ==> #[trigger] key_width(detail_key(i)) <= 64,
        forall|i: int| 0 <= i < 16 ==> #[trigger] encode_utf8(global_short(i)).len() <= 64,
        forall|i: int| 0 <= i < 6 ==> #[trigger] encode_utf8(detail_short(i)).len() <= 64,
{
    reveal_strlit("[");
    reveal_strlit("]");
    reveal_strlit("Enter");
    reveal_strlit("Esc");
    reveal_strlit("←");
    reveal_strlit("→");
    reveal_strlit("↑");
    reveal_strlit("↓");
    reveal_strlit("Focus detail");
    reveal_strlit("Help");
    reveal_strlit("Quit");
    reveal_strlit("Search");
    reveal_strlit("Cancel/Exit");
    reveal_strlit("Next tab");
    reveal_strlit("Previous tab");
    reveal_strlit("Sort");
    reveal_strlit("Move up");
    reveal_strlit("Move down");
    reveal_strlit("Focus left");
    reveal_strlit("Focus right");
    reveal_strlit("Previous field");
    reveal_strlit("Next field");
    reveal_strlit("Edit");
    reveal_strlit("Exit/Cancel");
    assert forall|i: int| 0 <= i < 16 implies #[trigger] key_width(global_key(i)) <= 64 by {
        lemma_utf8_len_bound("["@ + key_name(global_key(i)) + "]"@);
    }
    assert forall|i: int| 0 <= i < 6 implies #[trigger] key_width(detail_key(i)) <= 64 by {
        lemma_utf8_len_bound("["@ + key_name(detail_key(i)) + "]"@);
    }
    assert forall|i: int| 0 <= i < 16 implies #[trigger] encode_utf8(global_short(i)).len() <= 64 by {
        lemma_utf8_len_bound(global_short(i));
    }
    assert forall|i: int| 0 <= i < 6 implies #[trigger] encode_utf8(detail_short(i)).len() <= 64 by {
        lemma_utf8_len_bound(detail_short(i));
    }
}

/// One line of the keybinding help popup.
#[derive(Debug, Clone, PartialEq)]
pub enum HelpPopupLine {
    Heading(String),
    Blank,
    Binding(HelpLineText),
    Description(String, bool),
}

/// Whether `l` is the line that lists a binding of key `key` with short description
/// `short`, in a popup `width` wide whose key column is `kw` wide.
pub open spec fn is_binding_line(
    l: HelpPopupLine,
    key: KeyCode,
    short: Seq<char>,
    selected: bool,
    width: nat,
    kw: nat,
) -> bool {
    &&& l matches HelpPopupLine::Binding(t)
    &&& t.prefix@ == "  "@
    &&& t.short_description@ == short
    &&& t.padding@ == help_padding(encode_utf8(short).len(), width, kw)
    &&& t.key_text@ == pad_left("["@ + key_name(key) + "]"@, kw)
    &&& t.is_selected == selected
}

/// Whether `l` is the description line of a binding described as `long`.
pub open spec fn is_description_line(l: HelpPopupLine, long: Seq<char>, selected: bool) -> bool {
    l matches HelpPopupLine::Description(t, sel) && t@ == "    "@ + long && sel == selected
}

/// Whether `l` is a heading that reads `text`.
pub open spec fn is_heading_line(l: HelpPopupLine, text: Seq<char>) -> bool {
    l matches HelpPopupLine::Heading(t) && t@ == text
}

/// Whether lines `start`, `start + 1` and `start + 2` of `lines` list the binding of key
/// `key`: its line, its description line, and a blank line.
pub open spec fn is_entry(
    lines: Seq<HelpPopupLine>,
    start: int,
    key: KeyCode,
    short: Seq<char>,
    long: Seq<char>,
    selected: bool,
    width: nat,
    kw: nat,
) -> bool {
    &&& is_binding_line(lines[start], key, short, selected, width, kw)
    &&& is_description_line(lines[start + 1], long, selected)
    &&& lines[start + 2] is Blank
}

/// Whether entry `i` of the global table stands at its place in `lines`.
pub open spec fn global_entry(lines: Seq<HelpPopupLine>, i: int, selected_index: nat, width: nat, kw: nat) -> bool {
    is_entry(lines, 2 + 3 * i, global_key(i), global_short(i), global_long(i), i == selected_index, width, kw)
}

/// Whether entry `i` of the detail table stands at its place in `lines`; the detail
/// bindings are counted on from the global ones.
pub open spec fn detail_entry(lines: Seq<HelpPopupLine>, i: int, selected_index: nat, width: nat, kw: nat) -> bool {
    is_entry(lines, 53 + 3 * i, detail_key(i), detail_short(i), detail_long(i), 16 + i == selected_index, width, kw)
}

/// The lines of the help popup: the global heading and a blank line; each global binding
/// with its description and a blank line; a blank line, the detail heading and a blank
/// line; each detail binding likewise. Binding `selected_index`, counted over both
/// tables, is highlighted.
pub open spec fn is_help_popup(lines: Seq<HelpPopupLine>, selected_index: nat, width: nat, kw: nat) -> bool {
    &&& lines.len() == 71
    &&& is_heading_line(lines[0], "Global Keybindings:"@)
    &&& lines[1] is Blank
    &&& forall|i: int| 0 <= i < 16 ==> #[trigger] global_entry(lines, i, selected_index, width, kw)
    &&& lines[50] is Blank
    &&& is_heading_line(lines[51], "Detail View Keybindings:"@)
    &&& lines[52] is Blank
    &&& forall|i: int| 0 <= i < 6 ==> #[trigger] detail_entry(lines, i, selected_index, width, kw)
}

/// The lines of the keybinding help popup for a popup `available_width` wide, with
/// binding `selected_index` highlighted; the key column is as wide as the widest key.
pub fn help_popup_lines(selected_index: usize, available_width: usize) -> (r: Vec<HelpPopupLine>)
    ensures
        exists|kw: usize| #[trigger] is_widest_key(kw) && is_help_popup(r@, selected_index as nat, available_width as nat, kw as nat),
{
    let kw = help_key_width();
    proof {
        lemma_table_widths();
        assert(kw <= 64);
    }
    let global = global_keybinds();
    let detail = detail_keybinds();
    let mut lines: Vec<HelpPopupLine> = Vec::new();
    lines.push(HelpPopupLine::Heading("Global Keybindings:".to_string()));
    lines.push(HelpPopupLine::Blank);
    let mut i: usize = 0;
    while i < global.len()
        invariant
            global@.len() == 16,
            forall|j: int| 0 <= j < 16 ==> (#[trigger] global@[j]).key == global_key(j)
                && global@[j].short_description@ == global_short(j) && global@[j].description@ == global_long(j),
            forall|j: int| 0 <= j < 16 ==> #[trigger] encode_utf8(global_short(j)).len() <= 64,
            kw <= 64,
            i <= 16,
            lines@.len() == 2 + 3 * i,
            is_heading_line(lines@[0], "Global Keybindings:"@),
            lines@[1] is Blank,
            forall|j: int| 0 <= j < i ==> #[trigger] global_entry(lines@, j, selected_index as nat, available_width as nat, kw as nat),
        decreases global.len() - i,
    {
        let bind = global[i];
        let selected = i == selected_index;
        let key = format_key_code(&bind.key);
        let line = create_help_line_normal(key, bind.short_description, bind.description, selected, available_width, kw);
        let (text, sel) = create_help_description_line(bind.description, selected);
        let ghost before = lines@;
        lines.push(HelpPopupLine::Binding(line));
        lines.push(HelpPopupLine::Description(text, sel));
        lines.push(HelpPopupLine::Blank);
        proof {
            assert forall|j: int| 0 <= j < i + 1 implies #[trigger] global_entry(lines@, j, selected_index as nat, available_width as nat, kw as nat) by {
                if j < i {
                    assert(global_entry(before, j, selected_index as nat, available_width as nat, kw as nat));
                }
            }
        }
        i = i + 1;
    }
    let ghost globals = lines@;
    lines.push(HelpPopupLine::Blank);
    lines.push(HelpPopupLine::Heading("Detail View Keybindings:".to_string()));
    lines.push(HelpPopupLine::Blank);
    proof {
        assert forall|j: int| 0 <= j < 16 implies #[trigger] global_entry(lines@, j, selected_index as nat, available_width as nat, kw as nat) by {
            assert(global_entry(globals, j, selected_index as nat, available_width as nat, kw as nat));
        }
    }
    let mut d: usize = 0;
    while d < detail.len()
        invariant
            detail@.len() == 6,
            forall|j: int| 0 <= j < 6 ==> (#[trigger] detail@[j]).key == detail_key(j)
                && detail@[j].short_description@ == detail_short(j) && detail@[j].description@ == detail_long(j),
            forall|j: int| 0 <= j < 6 ==> #[trigger] encode_utf8(detail_short(j)).len() <= 64,
            kw <= 64,
            d <= 6,
            lines@.len() == 53 + 3 * d,
            is_heading_line(lines@[0], "Global Keybindings:"@),
            lines@[1] is Blank,
            forall|j: int| 0 <= j < 16 ==> #[trigger] global_entry(lines@, j, selected_index as nat, available_width as nat, kw as nat),
            lines@[50] is Blank,
            is_heading_line(lines@[51], "Detail View Keybindings:"@),
            lines@[52] is Blank,
            forall|j: int| 0 <= j < d ==> #[trigger] detail_entry(lines@, j, selected_index as nat, available_width as nat, kw as nat),
        decreases detail.len() - d,
    {
        let bind = detail[d];
        let selected = selected_index >= 16 && d == selected_index - 16;
        let key = format_key_code(&bind.key);
        let line = create_help_line_normal(key, bind.short_description, bind.description, selected, available_width, kw);
        let (text, sel) = create_help_description_line(bind.description, selected);
        let ghost before = lines@;
        lines.push(HelpPopupLine::Binding(line));
        lines.push(HelpPopupLine::Description(text, sel));
        lines.push(HelpPopupLine::Blank);
        proof {
            assert forall|j: int| 0 <= j < 16 implies #[trigger] global_entry(lines@, j, selected_index as nat, available_width as nat, kw as nat) by {
                assert(global_entry(before, j, selected_index as nat, available_width as nat, kw as nat));
            }
            assert forall|j: int| 0 <= j < d + 1 implies #[trigger] detail_entry(lines@, j, selected_index as nat, available_width as nat, kw as nat) by {
                if j < d {
                    assert(detail_entry(before, j, selected_index as nat, available_width as nat, kw as nat));
                }
            }
        }
        d = d + 1;
    }
    lines
}

} // verus!
