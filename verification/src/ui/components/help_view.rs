//! The help view of the first interface.
use vstd::prelude::*;
use crate::ui::lines::{TextLine, Tone, blank, line1, lines_view, push_line};

verus! {

/// The help view and its title.
#[derive(Debug, Clone)]
pub struct HelpView {
    pub title: String,
}

/// The lines of the help view.
pub open spec fn help_content_spec() -> Seq<Seq<(Tone, Seq<char>)>> {
    seq![
        seq![(Tone::Heading, "LazyJira Help"@)],
        seq![(Tone::Plain, Seq::<char>::empty())],
        seq![(Tone::Accent, "Vim-style Navigation:"@)],
        seq![(Tone::Plain, "  h, j, k, l    - Move focus/selection (vim directions)"@)],
        seq![(Tone::Plain, "  H, L          - Move between left and right columns"@)],
        seq![(Tone::Plain, "  Enter         - Select item and focus detail view"@)],
        seq![(Tone::Plain, "  Esc           - Go back from detail to previous pane"@)],
        seq![(Tone::Plain, Seq::<char>::empty())],
        seq![(Tone::Accent, "General:"@)],
        seq![(Tone::Plain, "  q             - Quit application"@)],
        seq![(Tone::Plain, "  ?             - Show/hide this help"@)],
        seq![(Tone::Plain, "  Ctrl+T        - Show transitions for selected issue"@)],
        seq![(Tone::Plain, Seq::<char>::empty())],
        seq![(Tone::Accent, "Panes:"@)],
        seq![(Tone::Plain, "  Sprint        - Current sprint issues"@)],
        seq![(Tone::Plain, "  Last Viewed   - Recently viewed issues"@)],
        seq![(Tone::Plain, "  Last Updated  - Recently updated issues"@)],
        seq![(Tone::Plain, "  Detail        - Selected issue details"@)],
        seq![(Tone::Plain, Seq::<char>::empty())],
        seq![(Tone::Accent, "Tips:"@)],
        seq![(Tone::Plain, "• Use j/k to move up/down within a pane"@)],
        seq![(Tone::Plain, "• Use h/l to move between panes"@)],
        seq![(Tone::Plain, "• Yellow border indicates focused pane"@)],
        seq![(Tone::Plain, "• Press Enter to select an issue and view details"@)],
        seq![(Tone::Plain, "• Press Esc to return from detail view to issue list"@)]
    ]
}

impl HelpView {
    /// The help view titled `Help`.
    pub fn new() -> (r: Self)
        ensures
            r.title@ == "Help"@,
    {
        HelpView { title: "Help".to_string() }
    }

    /// This view with another title.
    pub fn with_title(self, title: &str) -> (r: Self)
        ensures
            r.title@ == title@,
    {
        HelpView { title: title.to_string() }
    }

    /// The lines of the help.
    pub fn create_help_content() -> (r: Vec<TextLine>)
        ensures
            lines_view(r@) == help_content_spec(),
    {
        let mut v: Vec<TextLine> = Vec::new();
        push_line(&mut v, line1(Tone::Heading, "LazyJira Help"));
        push_line(&mut v, blank());
        push_line(&mut v, line1(Tone::Accent, "Vim-style Navigation:"));
        push_line(&mut v, line1(Tone::Plain, "  h, j, k, l    - Move focus/selection (vim directions)"));
        push_line(&mut v, line1(Tone::Plain, "  H, L          - Move between left and right columns"));
        push_line(&mut v, line1(Tone::Plain, "  Enter         - Select item and focus detail view"));
        push_line(&mut v, line1(Tone::Plain, "  Esc           - Go back from detail to previous pane"));
        push_line(&mut v, blank());
        push_line(&mut v, line1(Tone::Accent, "General:"));
        push_line(&mut v, line1(Tone::Plain, "  q             - Quit application"));
        push_line(&mut v, line1(Tone::Plain, "  ?             - Show/hide this help"));
        push_line(&mut v, line1(Tone::Plain, "  Ctrl+T        - Show transitions for selected issue"));
        push_line(&mut v, blank());
        push_line(&mut v, line1(Tone::Accent, "Panes:"));
        push_line(&mut v, line1(Tone::Plain, "  Sprint        - Current sprint issues"));
        push_line(&mut v, line1(Tone::Plain, "  Last Viewed   - Recently viewed issues"));
        push_line(&mut v, line1(Tone::Plain, "  Last Updated  - Recently updated issues"));
        push_line(&mut v, line1(Tone::Plain, "  Detail        - Selected issue details"));
        push_line(&mut v, blank());
        push_line(&mut v, line1(Tone::Accent, "Tips:"));
        push_line(&mut v, line1(Tone::Plain, "• Use j/k to move up/down within a pane"));
        push_line(&mut v, line1(Tone::Plain, "• Use h/l to move between panes"));
        push_line(&mut v, line1(Tone::Plain, "• Yellow border indicates focused pane"));
        push_line(&mut v, line1(Tone::Plain, "• Press Enter to select an issue and view details"));
        push_line(&mut v, line1(Tone::Plain, "• Press Esc to return from detail view to issue list"));
        assert(lines_view(v@) =~= help_content_spec());
        v
    }
}

impl Default for HelpView {
    fn default() -> (r: Self)
        ensures
            r.title@ == "Help"@,
    {
        HelpView::new()
    }
}

} // verus!
