//! Styled text as the interface draws it: lines of spans, each span with a tone that
//! the drawing maps to colours.
use vstd::prelude::*;

verus! {

/// The look of a span.
#[derive(Debug, Clone, Copy, PartialEq, Eq, Structural)]
pub enum Tone {
    /// Yellow and bold: titles and field headings.
    Heading,
    /// Cyan and bold: keys, labels and section names.
    Accent,
    /// Coloured by the issue status it shows.
    Status,
    /// Ordinary text.
    Plain,
}

/// A piece of a line with its tone.
#[derive(Debug, Clone, PartialEq)]
pub struct Span {
    pub text: String,
    pub tone: Tone,
}

/// One line of text.
#[derive(Debug, Clone, PartialEq)]
pub struct TextLine {
    pub spans: Vec<Span>,
}

/// The tone and text of each span of a line.
pub open spec fn line_view(l: TextLine) -> Seq<(Tone, Seq<char>)> {
    l.spans@.map_values(|s: Span| (s.tone, s.text@))
}

/// The tones and texts of lines.
pub open spec fn lines_view(v: Seq<TextLine>) -> Seq<Seq<(Tone, Seq<char>)>> {
    v.map_values(|l: TextLine| line_view(l))
}

/// A line of one span.
pub fn line1(tone: Tone, text: &str) -> (r: TextLine)
    ensures
        line_view(r) == seq![(tone, text@)],
{
    let mut spans: Vec<Span> = Vec::new();
    spans.push(Span { text: text.to_string(), tone });
    let r = TextLine { spans };
    assert(line_view(r) =~= seq![(tone, text@)]);
    r
}

/// A line of two spans.
pub fn line2(t1: Tone, a: &str, t2: Tone, b: &str) -> (r: TextLine)
    ensures
        line_view(r) == seq![(t1, a@), (t2, b@)],
{
    let mut spans: Vec<Span> = Vec::new();
    spans.push(Span { text: a.to_string(), tone: t1 });
    spans.push(Span { text: b.to_string(), tone: t2 });
    let r = TextLine { spans };
    assert(line_view(r) =~= seq![(t1, a@), (t2, b@)]);
    r
}

/// An empty line.
pub fn blank() -> (r: TextLine)
    ensures
        line_view(r) == seq![(Tone::Plain, Seq::<char>::empty())],
{
    let mut spans: Vec<Span> = Vec::new();
    spans.push(Span { text: String::new(), tone: Tone::Plain });
    let r = TextLine { spans };
    assert(line_view(r) =~= seq![(Tone::Plain, Seq::<char>::empty())]);
    r
}

/// Appends `l` to `v`.
pub fn push_line(v: &mut Vec<TextLine>, l: TextLine)
    ensures
        lines_view(final(v)@) == lines_view(old(v)@).push(line_view(l)),
{
    v.push(l);
    assert(lines_view(final(v)@) =~= lines_view(old(v)@).push(line_view(l)));
}

} // verus!
