//! Atlassian Document Format (ADF): the rich-text tree that Jira sends for a
//! description, and its rendering as plain or lightly marked-up text.
use vstd::prelude::*;
use crate::text::{push_char, repeat_seq, repeat_str, trim, trim_end, trim_end_seq, trim_seq};

verus! {

/// An ADF document: its `"type"` (normally `"doc"`), its version and its blocks.
#[derive(Debug)]
pub struct AdfDocument {
    pub doc_type: String,
    pub version: u32,
    pub content: Option<Vec<AdfNode>>,
}

/// One node of an ADF tree. `Unknown` stands for every node type not listed here.
#[derive(Debug)]
pub enum AdfNode {
    Paragraph { content: Option<Vec<AdfNode>> },
    Text { text: String, marks: Option<Vec<AdfMark>> },
    HardBreak,
    Heading { attrs: Option<AdfHeadingAttrs>, content: Option<Vec<AdfNode>> },
    CodeBlock { content: Option<Vec<AdfNode>>, attrs: Option<AdfCodeBlockAttrs> },
    BulletList { content: Option<Vec<AdfNode>> },
    OrderedList { content: Option<Vec<AdfNode>> },
    ListItem { content: Option<Vec<AdfNode>> },
    Blockquote { content: Option<Vec<AdfNode>> },
    Unknown,
}

/// A mark on a text node. `Unknown` stands for every mark not listed here.
#[derive(Debug)]
pub enum AdfMark {
    Strong,
    Em,
    Code,
    Underline,
    Strike,
    Link { attrs: AdfLinkAttrs },
    Unknown,
}

/// The attributes of a heading.
#[derive(Debug)]
pub struct AdfHeadingAttrs {
    pub level: u32,
}

/// The attributes of a code block.
#[derive(Debug)]
pub struct AdfCodeBlockAttrs {
    pub language: Option<String>,
}

/// The attributes of a link mark.
#[derive(Debug)]
pub struct AdfLinkAttrs {
    pub href: String,
}

/// Two spaces per indentation level.
pub open spec fn indent_seq(level: nat) -> Seq<char> {
    repeat_seq("  "@, level)
}

/// The plain text of one node: text as it is, a line break after each paragraph,
/// heading and code block, `"• "` before a list item and `"> "` before a quote.
pub open spec fn node_plain(n: AdfNode) -> Seq<char>
    decreases n,
{
    match n {
        AdfNode::Text { text, .. } => text@,
        AdfNode::Paragraph { content } => content_plain(content).push('\n'),
        AdfNode::HardBreak => seq!['\n'],
        AdfNode::Heading { content, .. } => content_plain(content).push('\n'),
        AdfNode::CodeBlock { content, .. } => content_plain(content).push('\n'),
        AdfNode::BulletList { content } => content_plain(content),
        AdfNode::OrderedList { content } => content_plain(content),
        AdfNode::ListItem { content } => "• "@ + content_plain(content),
        AdfNode::Blockquote { content } => ("> "@ + content_plain(content)).push('\n'),
        AdfNode::Unknown => Seq::empty(),
    }
}

/// The plain text of a node's children; empty when it has none.
pub open spec fn content_plain(c: Option<Vec<AdfNode>>) -> Seq<char>
    decreases c,
{
    match c {
        Some(v) => nodes_plain(v@),
        None => Seq::empty(),
    }
}

/// The plain texts of nodes, concatenated.
pub open spec fn nodes_plain(s: Seq<AdfNode>) -> Seq<char>
    decreases s,
{
    if s.len() == 0 {
        Seq::empty()
    } else {
        nodes_plain(s.drop_last()) + node_plain(s.last())
    }
}

/// Text wrapped in the markup of one mark.
pub open spec fn mark_wrap(r: Seq<char>, m: AdfMark) -> Seq<char> {
    match m {
        AdfMark::Strong => "**"@ + r + "**"@,
        AdfMark::Em => "*"@ + r + "*"@,
        AdfMark::Code => "`"@ + r + "`"@,
        AdfMark::Underline => "_"@ + r + "_"@,
        AdfMark::Strike => "~~"@ + r + "~~"@,
        AdfMark::Link { attrs } => "["@ + r + "]("@ + attrs.href@ + ")"@,
        AdfMark::Unknown => r,
    }
}

/// Text wrapped in the marks of `s`, the first mark innermost.
pub open spec fn marks_fold(t: Seq<char>, s: Seq<AdfMark>) -> Seq<char>
    decreases s.len(),
{
    if s.len() == 0 {
        t
    } else {
        mark_wrap(marks_fold(t, s.drop_last()), s.last())
    }
}

/// Text with its marks applied.
pub open spec fn marked_text(t: Seq<char>, marks: Option<Vec<AdfMark>>) -> Seq<char> {
    match marks {
        Some(v) => marks_fold(t, v@),
        None => t,
    }
}

/// The level of a heading: its `level` attribute, or 1.
pub open spec fn heading_level(attrs: Option<AdfHeadingAttrs>) -> u32 {
    match attrs {
        Some(a) => a.level,
        None => 1,
    }
}

/// The lightly marked-up text of one node at an indentation level: paragraphs and
/// headings end with a blank line, headings get `#` per level, code is fenced, list
/// items get `"• "` and indent their children one level deeper, quotes get `"> "`.
pub open spec fn node_fmt(n: AdfNode, level: nat) -> Seq<char>
    decreases n,
{
    let indent = indent_seq(level);
    match n {
        AdfNode::Text { text, marks } => marked_text(text@, marks),
        AdfNode::Paragraph { content } => indent + trim_end_seq(content_fmt(content, level)) + "\n\n"@,
        AdfNode::HardBreak => seq!['\n'],
        AdfNode::Heading { content, attrs } => indent + repeat_seq("#"@, heading_level(attrs) as nat)
            + " "@ + trim_seq(content_fmt(content, level)) + "\n\n"@,
        AdfNode::CodeBlock { content, .. } => indent + "```\n"@ + indent + trim_seq(
            content_plain(content),
        ) + "\n"@ + indent + "```\n\n"@,
        AdfNode::BulletList { content } => content_fmt(content, level),
        AdfNode::OrderedList { content } => content_fmt(content, level),
        AdfNode::ListItem { content } => indent + "• "@ + trim_seq(content_fmt(content, level + 1))
            + "\n"@,
        AdfNode::Blockquote { content } => indent + "> "@ + trim_seq(content_fmt(content, level))
            + "\n"@,
        AdfNode::Unknown => Seq::empty(),
    }
}

/// The marked-up text of a node's children; empty when it has none.
pub open spec fn content_fmt(c: Option<Vec<AdfNode>>, level: nat) -> Seq<char>
    decreases c,
{
    match c {
        Some(v) => nodes_fmt(v@, level),
        None => Seq::empty(),
    }
}

/// The marked-up texts of nodes, concatenated.
pub open spec fn nodes_fmt(s: Seq<AdfNode>, level: nat) -> Seq<char>
    decreases s,
{
    if s.len() == 0 {
        Seq::empty()
    } else {
        nodes_fmt(s.drop_last(), level) + node_fmt(s.last(), level)
    }
}

/// The plain text of a document.
pub open spec fn doc_plain(d: AdfDocument) -> Seq<char> {
    content_plain(d.content)
}

/// The marked-up text of a document.
pub open spec fn doc_fmt(d: AdfDocument) -> Seq<char> {
    content_fmt(d.content, 0)
}

/// A link mark writes the text it marks inside the square brackets and its address
/// inside the parentheses, `[text](href)`, around whatever the earlier marks made of
/// the text.
pub proof fn lemma_link_markup(t: Seq<char>, s: Seq<AdfMark>, attrs: AdfLinkAttrs)
    ensures
        marks_fold(t, s.push(AdfMark::Link { attrs })) == "["@ + marks_fold(t, s) + "]("@ + attrs.href@ + ")"@,
{
    assert(s.push(AdfMark::Link { attrs }).drop_last() == s);
}

/// A document of one paragraph holding one text with a link mark reads, marked up, as
/// `[text](href)` and a blank line.
pub proof fn lemma_link_paragraph(
    d: AdfDocument,
    blocks: Vec<AdfNode>,
    inline: Vec<AdfNode>,
    text: String,
    marks: Vec<AdfMark>,
    attrs: AdfLinkAttrs,
)
    requires
        d.content == Some(blocks),
        blocks@ == seq![AdfNode::Paragraph { content: Some(inline) }],
        inline@ == seq![AdfNode::Text { text, marks: Some(marks) }],
        marks@ == seq![AdfMark::Link { attrs }],
    ensures
        doc_fmt(d) == "["@ + text@ + "]("@ + attrs.href@ + ")"@ + "\n\n"@,
{
    reveal_strlit(")");
    let link = "["@ + text@ + "]("@ + attrs.href@ + ")"@;
    assert(marks@ == Seq::<AdfMark>::empty().push(AdfMark::Link { attrs }));
    lemma_link_markup(text@, Seq::empty(), attrs);
    assert(marks_fold(text@, Seq::empty()) == text@);
    assert(marks_fold(text@, marks@) == link);
    assert(inline@.drop_last() == Seq::<AdfNode>::empty());
    assert(nodes_fmt(Seq::<AdfNode>::empty(), 0) == Seq::<char>::empty());
    assert(node_fmt(inline@.last(), 0) == link);
    assert(nodes_fmt(inline@, 0) == link);
    assert(link.last() == ')');
    assert(trim_end_seq(link) == link);
    assert(indent_seq(0) == Seq::<char>::empty());
    assert(blocks@.drop_last() == Seq::<AdfNode>::empty());
    assert(content_fmt(Some(inline), 0) == link);
    assert(node_fmt(blocks@.last(), 0) == link + "\n\n"@);
    assert(nodes_fmt(blocks@, 0) == link + "\n\n"@);
}

/// Each paragraph's plain text is followed by a line break, so two paragraphs of text
/// come out on two lines: `first`, a line break, `second`, a line break.
pub proof fn lemma_paragraphs_on_lines(
    d: AdfDocument,
    blocks: Vec<AdfNode>,
    c1: Vec<AdfNode>,
    c2: Vec<AdfNode>,
    t1: String,
    m1: Option<Vec<AdfMark>>,
    t2: String,
    m2: Option<Vec<AdfMark>>,
)
    requires
        d.content == Some(blocks),
        blocks@ == seq![AdfNode::Paragraph { content: Some(c1) }, AdfNode::Paragraph { content: Some(c2) }],
        c1@ == seq![AdfNode::Text { text: t1, marks: m1 }],
        c2@ == seq![AdfNode::Text { text: t2, marks: m2 }],
    ensures
        doc_plain(d) == t1@ + seq!['\n'] + t2@ + seq!['\n'],
{
    assert(c1@.drop_last() == Seq::<AdfNode>::empty());
    assert(c2@.drop_last() == Seq::<AdfNode>::empty());
    assert(nodes_plain(Seq::<AdfNode>::empty()) == Seq::<char>::empty());
    assert(node_plain(c1@.last()) == t1@);
    assert(node_plain(c2@.last()) == t2@);
    assert(nodes_plain(c1@) == t1@);
    assert(nodes_plain(c2@) == t2@);
    let b = blocks@;
    assert(b.drop_last() == seq![AdfNode::Paragraph { content: Some(c1) }]);
    assert(b.drop_last().drop_last() == Seq::<AdfNode>::empty());
    assert(content_plain(Some(c1)) == t1@);
    assert(content_plain(Some(c2)) == t2@);
    assert(node_plain(b.drop_last().last()) == t1@.push('\n'));
    assert(node_plain(b.last()) == t2@.push('\n'));
    assert(nodes_plain(b.drop_last()) == t1@.push('\n'));
    assert(nodes_plain(b) == t1@.push('\n') + t2@.push('\n'));
}

/// The plain text of a document whose last block is a paragraph ends with a line break.
pub proof fn lemma_paragraph_ends_line(d: AdfDocument, blocks: Vec<AdfNode>, c: Option<Vec<AdfNode>>)
    requires
        d.content == Some(blocks),
        blocks@.len() > 0,
        blocks@.last() == (AdfNode::Paragraph { content: c }),
    ensures
        doc_plain(d).len() > 0,
        doc_plain(d).last() == '\n',
{
}

impl AdfDocument {
    /// The plain text of the document; empty when it has no content.
    pub fn to_plain_text(&self) -> (r: String)
        ensures
            r@ == doc_plain(*self),
    {
        match &self.content {
            Some(nodes) => Self::nodes_to_text(nodes.as_slice()),
            None => String::new(),
        }
    }

    /// The marked-up text of the document; empty when it has no content.
    pub fn to_formatted_text(&self) -> (r: String)
        ensures
            r@ == doc_fmt(*self),
    {
        match &self.content {
            Some(nodes) => {
                let indent = String::new();
                proof {
                    assert(indent@ == indent_seq(0));
                }
                Self::nodes_to_formatted_text(nodes.as_slice(), Ghost(0nat), indent.as_str())
            },
            None => String::new(),
        }
    }

    fn nodes_to_text(nodes: &[AdfNode]) -> (r: String)
        ensures
            r@ == nodes_plain(nodes@),
        decreases nodes@, 0nat,
    {
        let mut out = String::new();
        let mut i: usize = 0;
        while i < nodes.len()
            invariant
                i <= nodes@.len(),
                out@ == nodes_plain(nodes@.subrange(0, i as int)),
            decreases nodes.len() - i,
        {
            let t = Self::node_to_text(&nodes[i]);
            out.append(t.as_str());
            proof {
                let s = nodes@.subrange(0, i + 1);
                assert(s.drop_last() == nodes@.subrange(0, i as int));
            }
            i = i + 1;
        }
        assert(nodes@.subrange(0, nodes@.len() as int) == nodes@);
        out
    }

    fn content_to_text(content: &Option<Vec<AdfNode>>) -> (r: String)
        ensures
            r@ == content_plain(*content),
        decreases *content, 1nat,
    {
        match content {
            Some(v) => {
                proof {
                    assert(decreases_to!(*content => content->0));
                    assert(decreases_to!(*v => v@));
                }
                Self::nodes_to_text(v.as_slice())
            },
            None => String::new(),
        }
    }

    fn node_to_text(node: &AdfNode) -> (r: String)
        ensures
            r@ == node_plain(*node),
        decreases *node, 2nat,
    {
        match node {
            AdfNode::Text { text, .. } => text.clone(),
            AdfNode::Paragraph { content } => {
                let mut t = Self::content_to_text(content);
                push_char(&mut t, '\n');
                t
            },
            AdfNode::HardBreak => {
                let mut t = String::new();
                push_char(&mut t, '\n');
                t
            },
            AdfNode::Heading { content, .. } => {
                let mut t = Self::content_to_text(content);
                push_char(&mut t, '\n');
                t
            },
            AdfNode::CodeBlock { content, .. } => {
                let mut t = Self::content_to_text(content);
                push_char(&mut t, '\n');
                t
            },
            AdfNode::BulletList { content } => Self::content_to_text(content),
            AdfNode::OrderedList { content } => Self::content_to_text(content),
            AdfNode::ListItem { content } => {
                let mut t = "• ".to_string();
                let c = Self::content_to_text(content);
                t.append(c.as_str());
                t
            },
            AdfNode::Blockquote { content } => {
                let mut t = "> ".to_string();
                let c = Self::content_to_text(content);
                t.append(c.as_str());
                push_char(&mut t, '\n');
                t
            },
            AdfNode::Unknown => String::new(),
        }
    }

    fn nodes_to_formatted_text(nodes: &[AdfNode], indent_level: Ghost<nat>, indent: &str) -> (r: String)
        requires
            indent@ == indent_seq(indent_level@),
        ensures
            r@ == nodes_fmt(nodes@, indent_level@),
        decreases nodes@, 0nat,
    {
        let mut out = String::new();
        let mut i: usize = 0;
        while i < nodes.len()
            invariant
                i <= nodes@.len(),
                indent@ == indent_seq(indent_level@),
                out@ == nodes_fmt(nodes@.subrange(0, i as int), indent_level@),
            decreases nodes.len() - i,
        {
            let t = Self::node_to_formatted_text(&nodes[i], indent_level, indent);
            out.append(t.as_str());
            proof {
                let s = nodes@.subrange(0, i + 1);
                assert(s.drop_last() == nodes@.subrange(0, i as int));
            }
            i = i + 1;
        }
        assert(nodes@.subrange(0, nodes@.len() as int) == nodes@);
        out
    }

    fn content_to_formatted_text(content: &Option<Vec<AdfNode>>, indent_level: Ghost<nat>, indent: &str) -> (r: String)
        requires
            indent@ == indent_seq(indent_level@),
        ensures
            r@ == content_fmt(*content, indent_level@),
        decreases *content, 1nat,
    {
        match content {
            Some(v) => {
                proof {
                    assert(decreases_to!(*content => content->0));
                    assert(decreases_to!(*v => v@));
                }
                Self::nodes_to_formatted_text(v.as_slice(), indent_level, indent)
            },
            None => String::new(),
        }
    }

    fn node_to_formatted_text(node: &AdfNode, indent_level: Ghost<nat>, indent: &str) -> (r: String)
        requires
            indent@ == indent_seq(indent_level@),
        ensures
            r@ == node_fmt(*node, indent_level@),
        decreases *node, 2nat,
    {
        match node {
            AdfNode::Text { text, marks } => Self::apply_text_formatting(text.as_str(), marks.as_ref()),
            AdfNode::Paragraph { content } => {
                let text = Self::content_to_formatted_text(content, indent_level, indent);
                let mut r = indent.to_string();
                let t = trim_end(text.as_str());
                r.append(t.as_str());
                r.append("\n\n");
                r
            },
            AdfNode::HardBreak => {
                let mut t = String::new();
                push_char(&mut t, '\n');
                t
            },
            AdfNode::Heading { content, attrs } => {
                let level: u32 = match attrs {
                    Some(a) => a.level,
                    None => 1,
                };
                let text = Self::content_to_formatted_text(content, indent_level, indent);
                let prefix = repeat_str("#", level as usize);
                let mut r = indent.to_string();
                r.append(prefix.as_str());
                r.append(" ");
                let t = trim(text.as_str());
                r.append(t.as_str());
                r.append("\n\n");
                r
            },
            AdfNode::CodeBlock { content, .. } => {
                let text = Self::content_to_text(content);
                let mut r = indent.to_string();
                r.append("```\n");
                r.append(indent);
                let t = trim(text.as_str());
                r.append(t.as_str());
                r.append("\n");
                r.append(indent);
                r.append("```\n\n");
                r
            },
            AdfNode::BulletList { content } => Self::content_to_formatted_text(content, indent_level, indent),
            AdfNode::OrderedList { content } => Self::content_to_formatted_text(content, indent_level, indent),
            AdfNode::ListItem { content } => {
                let mut deeper = indent.to_string();
                deeper.append("  ");
                proof {
                    assert(deeper@ == indent_seq(indent_level@ + 1));
                }
                let text = Self::content_to_formatted_text(content, Ghost(indent_level@ + 1), deeper.as_str());
                let mut r = indent.to_string();
                r.append("• ");
                let t = trim(text.as_str());
                r.append(t.as_str());
                r.append("\n");
                r
            },
            AdfNode::Blockquote { content } => {
                let text = Self::content_to_formatted_text(content, indent_level, indent);
                let mut r = indent.to_string();
                r.append("> ");
                let t = trim(text.as_str());
                r.append(t.as_str());
                r.append("\n");
                r
            },
            AdfNode::Unknown => String::new(),
        }
    }

    fn apply_text_formatting(text: &str, marks: Option<&Vec<AdfMark>>) -> (r: String)
        ensures
            r@ == marked_text(text@, match marks { Some(v) => Some(*v), None => None }),
    {
        match marks {
            Some(marks) => {
                let mut result = text.to_string();
                let mut i: usize = 0;
                while i < marks.len()
                    invariant
                        i <= marks@.len(),
                        result@ == marks_fold(text@, marks@.subrange(0, i as int)),
                    decreases marks.len() - i,
                {
                    let ghost before = result@;
                    result = match &marks[i] {
                        AdfMark::Strong => {
                            let mut r = "**".to_string();
                            r.append(result.as_str());
                            r.append("**");
                            r
                        },
                        AdfMark::Em => {
                            let mut r = "*".to_string();
                            r.append(result.as_str());
                            r.append("*");
                            r
                        },
                        AdfMark::Code => {
                            let mut r = "`".to_string();
                            r.append(result.as_str());
                            r.append("`");
                            r
                        },
                        AdfMark::Underline => {
                            let mut r = "_".to_string();
                            r.append(result.as_str());
                            r.append("_");
                            r
                        },
                        AdfMark::Strike => {
                            let mut r = "~~".to_string();
                            r.append(result.as_str());
                            r.append("~~");
                            r
                        },
                        AdfMark::Link { attrs } => {
                            let mut r = "[".to_string();
                            r.append(result.as_str());
                            r.append("](");
                            r.append(attrs.href.as_str());
                            r.append(")");
                            r
                        },
                        AdfMark::Unknown => result,
                    };
                    proof {
                        let s = marks@.subrange(0, i + 1);
                        assert(s.drop_last() == marks@.subrange(0, i as int));
                    }
                    i = i + 1;
                }
                assert(marks@.subrange(0, marks@.len() as int) == marks@);
                result
            },
            None => text.to_string(),
        }
    }
}

} // verus!
