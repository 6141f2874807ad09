//! Plain text out of a description in the Atlassian Document Format, read as raw JSON.
use vstd::prelude::*;
use crate::json::{json_as_str, json_get, key_index, lemma_get_decreases, lemma_key_index, JsonValue};
use crate::text::{is_blank_str, is_ws, lemma_trim_end_prefix, lemma_trim_start_suffix, push_char, trim, trim_end, trim_end_seq, trim_seq};

verus! {

/// The `"type"` of a block, when it is a string.
pub open spec fn block_type(item: JsonValue) -> Option<Seq<char>> {
    match json_get(item, "type"@) {
        Some(t) => json_as_str(t),
        None => None,
    }
}

/// Whether a block of this type ends with a line break rather than a space.
pub open spec fn ends_line(ty: Option<Seq<char>>) -> bool {
    ||| ty == Some("paragraph"@)
    ||| ty == Some("heading"@)
    ||| ty == Some("bulletList"@)
    ||| ty == Some("orderedList"@)
    ||| ty == Some("listItem"@)
    ||| ty == Some("codeBlock"@)
}

/// The text after one more block: the block's trimmed text `p` and its separator,
/// unless `p` is empty.
pub open spec fn block_step(acc: Seq<char>, p: Seq<char>, ty: Option<Seq<char>>) -> Seq<char> {
    if p.len() == 0 {
        acc
    } else if ends_line(ty) {
        (acc + p).push('\n')
    } else if (acc + p).last() == '\n' || (acc + p).last() == ' ' {
        acc + p
    } else {
        (acc + p).push(' ')
    }
}

/// The text of a list of ADF blocks, trailing whitespace removed; empty for a
/// value that is not an array.
pub open spec fn adf_extract(v: JsonValue) -> Seq<char>
    decreases v,
{
    match v {
        JsonValue::Array(items) => trim_end_seq(adf_blocks(items@)),
        _ => Seq::empty(),
    }
}

/// The blocks' texts, each followed by its separator.
pub open spec fn adf_blocks(items: Seq<JsonValue>) -> Seq<char>
    decreases items,
{
    if items.len() == 0 {
        Seq::empty()
    } else {
        block_step(
            adf_blocks(items.drop_last()),
            trim_seq(block_text(items.last())),
            block_type(items.last()),
        )
    }
}

/// A heading with text ends its line: the text of blocks ending in such a heading is
/// the text before it, then the heading's trimmed text, then a line break.
pub proof fn lemma_heading_ends_line(items: Seq<JsonValue>, h: JsonValue)
    requires
        block_type(h) == Some("heading"@),
        trim_seq(block_text(h)).len() > 0,
    ensures
        adf_blocks(items.push(h)) == adf_blocks(items) + trim_seq(block_text(h)) + seq!['\n'],
{
    assert(items.push(h).drop_last() == items);
    assert(items.push(h).last() == h);
}

/// More blocks only add text at the end: the text of `items` begins the text of
/// `items` followed by `rest`.
pub proof fn lemma_blocks_prefix(items: Seq<JsonValue>, rest: Seq<JsonValue>)
    ensures
        adf_blocks(items).len() <= adf_blocks(items + rest).len(),
        adf_blocks(items + rest).subrange(0, adf_blocks(items).len() as int) == adf_blocks(items),
    decreases rest.len(),
{
    if rest.len() == 0 {
        assert(items + rest == items);
    } else {
        let shorter = rest.drop_last();
        lemma_blocks_prefix(items, shorter);
        assert((items + rest).drop_last() == items + shorter);
        let acc = adf_blocks(items + shorter);
        let whole = adf_blocks(items + rest);
        assert(whole.subrange(0, acc.len() as int) == acc);
        assert(whole.subrange(0, adf_blocks(items).len() as int) == acc.subrange(
            0,
            adf_blocks(items).len() as int,
        ));
    }
}

/// Whatever follows a heading with text starts on a new line: the text of the blocks
/// `items`, a heading `h` and any blocks `rest` begins with the text before the heading,
/// the heading's trimmed text and a line break.
pub proof fn lemma_after_heading_new_line(items: Seq<JsonValue>, h: JsonValue, rest: Seq<JsonValue>)
    requires
        block_type(h) == Some("heading"@),
        trim_seq(block_text(h)).len() > 0,
    ensures
        ({
            let head = adf_blocks(items) + trim_seq(block_text(h)) + seq!['\n'];
            &&& head.len() <= adf_blocks(items.push(h) + rest).len()
            &&& adf_blocks(items.push(h) + rest).subrange(0, head.len() as int) == head
        }),
{
    lemma_heading_ends_line(items, h);
    lemma_blocks_prefix(items.push(h), rest);
}

/// The text that a trimmed block text ends with is not whitespace.
proof fn lemma_trimmed_last(x: Seq<char>)
    requires
        trim_seq(x).len() > 0,
    ensures
        !is_ws(trim_seq(x).last()),
{
    lemma_trim_end_prefix(x);
    lemma_trim_start_suffix(trim_end_seq(x));
    let y = trim_end_seq(x);
    assert(trim_seq(x).last() == y.last());
}

/// So the text extracted from a heading with text and a block with text after it keeps
/// the line break between them: it begins with the text before the heading, the
/// heading's trimmed text and a line break, and goes on past that line break.
pub proof fn lemma_heading_then_block(v: JsonValue, items: Seq<JsonValue>, h: JsonValue, b: JsonValue)
    requires
        v is Array,
        v->Array_0@ == items.push(h).push(b),
        block_type(h) == Some("heading"@),
        trim_seq(block_text(h)).len() > 0,
        trim_seq(block_text(b)).len() > 0,
    ensures
        ({
            let head = adf_blocks(items) + trim_seq(block_text(h)) + seq!['\n'];
            &&& head.len() < adf_extract(v).len()
            &&& adf_extract(v).subrange(0, head.len() as int) == head
        }),
{
    let head = adf_blocks(items) + trim_seq(block_text(h)) + seq!['\n'];
    lemma_heading_ends_line(items, h);
    let all = items.push(h).push(b);
    assert(all.drop_last() == items.push(h));
    assert(all.last() == b);
    let q = trim_seq(block_text(b));
    lemma_trimmed_last(block_text(b));
    let whole = adf_blocks(all);
    assert((head + q).last() == q.last());
    assert(whole.subrange(0, (head + q).len() as int) == head + q);
    let k = head.len() + q.len() - 1;
    assert(whole[k] == q.last());
    lemma_trim_end_prefix(whole);
    let t = trim_end_seq(whole);
    assert(t.len() > k);
    assert(t.subrange(0, head.len() as int) == whole.subrange(0, head.len() as int));
    assert(whole.subrange(0, head.len() as int) == (head + q).subrange(0, head.len() as int));
}

/// The untrimmed text of one block: its inline children, one after the other.
pub open spec fn block_text(item: JsonValue) -> Seq<char>
    decreases item,
{
    match item {
        JsonValue::Object(m) => {
            let i = key_index(m@, "content"@);
            if 0 <= i < m@.len() {
                match m@[i].value {
                    JsonValue::Array(inner) => inline_text(inner@),
                    _ => Seq::empty(),
                }
            } else {
                Seq::empty()
            }
        },
        _ => Seq::empty(),
    }
}

/// The texts of inline children, concatenated.
pub open spec fn inline_text(s: Seq<JsonValue>) -> Seq<char>
    decreases s,
{
    if s.len() == 0 {
        Seq::empty()
    } else {
        inline_text(s.drop_last()) + inline_piece(s.last())
    }
}

/// One inline child: its `"text"` string, then the text of its nested `"content"`.
pub open spec fn inline_piece(x: JsonValue) -> Seq<char>
    decreases x,
{
    let own = match json_get(x, "text"@) {
        Some(JsonValue::String(t)) => t@,
        _ => Seq::empty(),
    };
    let nested = match x {
        JsonValue::Object(m) => {
            let i = key_index(m@, "content"@);
            if 0 <= i < m@.len() {
                adf_extract(m@[i].value)
            } else {
                Seq::empty()
            }
        },
        _ => Seq::empty(),
    };
    own + nested
}

/// What a description field reads as: a string as it is, the text of an ADF
/// document's `"content"`, the JSON text of anything else, and a notice when there
/// is no description.
pub open spec fn description_text(description: Option<JsonValue>) -> Seq<char> {
    match description {
        Some(v) => match v {
            JsonValue::String(s) => s@,
            _ => match json_get(v, "content"@) {
                Some(c) => adf_extract(c),
                None => crate::json::json_text(v),
            },
        },
        None => "No description available"@,
    }
}

/// The text of one inline child (its `"text"` and nested `"content"`).
fn inline_piece_text(x: &JsonValue, out: &mut String)
    ensures
        final(out)@ == old(out)@ + inline_piece(*x),
    decreases *x, 0nat,
{
    let ghost start = out@;
    match x.get("text") {
        Some(t) => match t.as_str() {
            Some(s) => {
                out.append(s);
            },
            None => {},
        },
        None => {},
    }
    let ghost mid = out@;
    match x.get("content") {
        Some(nested) => {
            proof {
                lemma_get_decreases(*x, "content"@);
            }
            let t = extract_text_from_adf(nested);
            out.append(t.as_str());
            proof {
                let m = x->Object_0;
                lemma_key_index(m@, "content"@);
            }
        },
        None => {
            proof {
                if x is Object {
                    lemma_key_index(x->Object_0@, "content"@);
                }
            }
        },
    }
    assert(out@ == start + inline_piece(*x));
}

/// The untrimmed text of one block.
fn block_text_exec(item: &JsonValue) -> (r: String)
    ensures
        r@ == block_text(*item),
    decreases *item, 1nat,
{
    let mut out = String::new();
    match item.get("content") {
        Some(inner_value) => {
            proof {
                lemma_get_decreases(*item, "content"@);
                lemma_key_index(item->Object_0@, "content"@);
            }
            match inner_value.as_array() {
                Some(inner) => {
                    let mut j: usize = 0;
                    while j < inner.len()
                        invariant
                            j <= inner@.len(),
                            decreases_to!(*item => *inner_value),
                            *inner_value == JsonValue::Array(*inner),
                            out@ == inline_text(inner@.subrange(0, j as int)),
                        decreases inner.len() - j,
                    {
                        proof {
                            assert(decreases_to!(*inner_value => (*inner_value)->Array_0));
                            assert(decreases_to!(*inner => inner[j as int]));
                        }
                        inline_piece_text(&inner[j], &mut out);
                        proof {
                            let s = inner@.subrange(0, j + 1);
                            assert(s.drop_last() == inner@.subrange(0, j as int));
                            assert(s.last() == inner@[j as int]);
                        }
                        j = j + 1;
                    }
                    assert(inner@.subrange(0, inner@.len() as int) == inner@);
                },
                None => {},
            }
        },
        None => {
            proof {
                if item is Object {
                    lemma_key_index(item->Object_0@, "content"@);
                }
            }
        },
    }
    out
}

/// The plain text of a list of ADF blocks (`content` of a document): each non-empty
/// block's trimmed text, followed by a line break for paragraphs, headings, lists,
/// list items and code blocks and by a space otherwise; trailing whitespace removed.
pub fn extract_text_from_adf(content: &JsonValue) -> (r: String)
    ensures
        r@ == adf_extract(*content),
    decreases *content, 2nat,
{
    let mut text = String::new();
    match content.as_array() {
        Some(items) => {
            let mut i: usize = 0;
            while i < items.len()
                invariant
                    i <= items@.len(),
                    *content == JsonValue::Array(*items),
                    text@ == adf_blocks(items@.subrange(0, i as int)),
                decreases items.len() - i,
            {
                let item = &items[i];
                proof {
                    assert(decreases_to!(*content => (*content)->Array_0));
                    assert(decreases_to!(*items => items[i as int]));
                }
                let item_type: Option<&str> = match item.get("type") {
                    Some(t) => t.as_str(),
                    None => None,
                };
                let paragraph_text = block_text_exec(item);
                let ghost acc = text@;
                if !is_blank_str(paragraph_text.as_str()) {
                    let p = trim(paragraph_text.as_str());
                    text.append(p.as_str());
                    let ends = match item_type {
                        Some(t) => {
                            let t = t.to_string();
                            t == "paragraph".to_string() || t == "heading".to_string() || t
                                == "bulletList".to_string() || t == "orderedList".to_string() || t
                                == "listItem".to_string() || t == "codeBlock".to_string()
                        },
                        None => false,
                    };
                    if ends {
                        push_char(&mut text, '\n');
                    } else {
                        let n = text.as_str().unicode_len();
                        if n == 0 || (text.as_str().get_char(n - 1) != '\n' && text.as_str().get_char(n - 1) != ' ') {
                            push_char(&mut text, ' ');
                        }
                    }
                }
                proof {
                    let s = items@.subrange(0, i + 1);
                    assert(s.drop_last() == items@.subrange(0, i as int));
                    assert(s.last() == items@[i as int]);
                }
                i = i + 1;
            }
            assert(items@.subrange(0, items@.len() as int) == items@);
        },
        None => {},
    }
    trim_end(text.as_str())
}

/// The text of an issue's description field: a plain string as it is, the text of an
/// ADF document, the JSON text of any other value, and a notice when there is none.
pub fn parse_description(description: Option<&JsonValue>) -> (r: String)
    ensures
        r@ == description_text(match description { Some(v) => Some(*v), None => None }),
{
    match description {
        Some(desc_value) => {
            if let Some(desc_str) = desc_value.as_str() {
                desc_str.to_string()
            } else if let Some(content_array) = desc_value.get("content") {
                extract_text_from_adf(content_array)
            } else {
                desc_value.to_json_string()
            }
        },
        None => {
            "No description available".to_string()
        },
    }
}

} // verus!
