//! A JSON value as the Jira REST API returns it, held as plain data.
use vstd::prelude::*;
use crate::text::push_char;

verus! {

/// One JSON value. A number keeps the text that the JSON serializer gives it. A value
/// read from serde_json has the members of each object in ascending key order, each key
/// once (`json_wf`).
#[derive(Debug, PartialEq)]
pub enum JsonValue {
    Null,
    Bool(bool),
    Number(String),
    String(String),
    Array(Vec<JsonValue>),
    Object(Vec<JsonMember>),
}

/// One `"key": value` member of a JSON object, in the object's order.
#[derive(Debug, PartialEq)]
pub struct JsonMember {
    pub key: String,
    pub value: JsonValue,
}

/// The position of the first member named `key`, or `m.len()` if there is none.
pub open spec fn key_index(m: Seq<JsonMember>, key: Seq<char>) -> int
    decreases m.len(),
{
    if m.len() == 0 {
        0
    } else if m[0].key@ == key {
        0
    } else {
        1 + key_index(m.drop_first(), key)
    }
}

/// `key_index` lies in `0..=m.len()`; it names a member with that key when below the end,
/// and no member before it has that key.
pub proof fn lemma_key_index(m: Seq<JsonMember>, key: Seq<char>)
    ensures
        0 <= key_index(m, key) <= m.len(),
        key_index(m, key) < m.len() ==> m[key_index(m, key)].key@ == key,
        forall|j: int| 0 <= j < key_index(m, key) ==> (#[trigger] m[j]).key@ != key,
    decreases m.len(),
{
    if m.len() > 0 && m[0].key@ != key {
        lemma_key_index(m.drop_first(), key);
        assert forall|j: int| 0 <= j < key_index(m, key) implies (#[trigger] m[j]).key@ != key by {
            if j > 0 {
                assert(m[j] == m.drop_first()[j - 1]);
            }
        }
    }
}

/// The value of the first member named `key` of an object (`Value::get`); `None` for
/// a missing member or a value that is not an object. In an object that serde_json can
/// hold (`json_wf`) the first member with a key is the only one
/// (`lemma_wf_member_unique`).
pub open spec fn json_get(v: JsonValue, key: Seq<char>) -> Option<JsonValue> {
    match v {
        JsonValue::Object(m) => {
            let i = key_index(m@, key);
            if 0 <= i < m@.len() {
                Some(m@[i].value)
            } else {
                None
            }
        },
        _ => None,
    }
}

/// A member value found by `json_get` is part of the object, so recursion into it terminates.
pub proof fn lemma_get_decreases(v: JsonValue, key: Seq<char>)
    requires
        json_get(v, key) is Some,
    ensures
        decreases_to!(v => json_get(v, key)->0),
{
    let m = v->Object_0;
    lemma_key_index(m@, key);
    let i = key_index(m@, key);
    assert(decreases_to!(v => v->Object_0));
    assert(decreases_to!(m => m[i]));
}

/// Whether text `a` comes before text `b` in the order of serde_json's object keys,
/// that of `String`: character by character by code point, a proper prefix first.
pub open spec fn key_before(a: Seq<char>, b: Seq<char>) -> bool
    decreases a.len(),
{
    if b.len() == 0 {
        false
    } else if a.len() == 0 {
        true
    } else if a[0] != b[0] {
        (a[0] as u32) < (b[0] as u32)
    } else {
        key_before(a.drop_first(), b.drop_first())
    }
}

/// No text comes before itself.
pub proof fn lemma_key_before_irreflexive(a: Seq<char>)
    ensures
        !key_before(a, a),
    decreases a.len(),
{
    if a.len() > 0 {
        lemma_key_before_irreflexive(a.drop_first());
    }
}

/// Whether the keys of the members `m` ascend strictly, as the keys of a serde_json map
/// do: each key once, in key order.
pub open spec fn keys_ascending(m: Seq<JsonMember>) -> bool {
    forall|i: int, j: int| #![trigger m[i], m[j]] 0 <= i < j < m.len() ==> key_before(m[i].key@, m[j].key@)
}

/// Whether `v` is a value that serde_json can hold: the members of every object, at any
/// depth, have strictly ascending keys.
pub open spec fn json_wf(v: JsonValue) -> bool
    decreases v,
{
    match v {
        JsonValue::Array(a) => json_items_wf(a@),
        JsonValue::Object(m) => keys_ascending(m@) && json_members_wf(m@),
        _ => true,
    }
}

/// Whether every value of `items` is one that serde_json can hold.
pub open spec fn json_items_wf(items: Seq<JsonValue>) -> bool
    decreases items,
{
    if items.len() == 0 {
        true
    } else {
        json_items_wf(items.drop_last()) && json_wf(items.last())
    }
}

/// Whether the value of every member of `m` is one that serde_json can hold.
pub open spec fn json_members_wf(m: Seq<JsonMember>) -> bool
    decreases m,
{
    if m.len() == 0 {
        true
    } else {
        json_members_wf(m.drop_last()) && json_wf(m.last().value)
    }
}

/// In an object that serde_json can hold each key names one member only, so the member
/// that `json_get` finds under a member's key is that member.
pub proof fn lemma_wf_member_unique(v: JsonValue, j: int)
    requires
        json_wf(v),
        v is Object,
        0 <= j < v->Object_0@.len(),
    ensures
        json_get(v, v->Object_0@[j].key@) == Some(v->Object_0@[j].value),
{
    let m = v->Object_0@;
    let k = m[j].key@;
    lemma_key_index(m, k);
    let i = key_index(m, k);
    if i < j {
        assert(key_before(m[i].key@, m[j].key@));
        lemma_key_before_irreflexive(k);
    } else if i > j {
        assert(m[j].key@ != k);
    }
}

/// The text of a JSON string value (`Value::as_str`).
pub open spec fn json_as_str(v: JsonValue) -> Option<Seq<char>> {
    match v {
        JsonValue::String(s) => Some(s@),
        _ => None,
    }
}

/// The JSON string literal, quotes and escapes included, that serde_json writes for the
/// text `s`.
pub uninterp spec fn json_quoted(s: Seq<char>) -> Seq<char>;

/// The JSON string literal for `s` as serde_json writes it (the `Display` of
/// `Value::String`, compact). It depends on the text alone.
#[verifier::external_body]
fn string_literal(s: &str) -> (r: String)
    ensures
        r@ == json_quoted(s@),
{
    serde_json::Value::String(s.to_string()).to_string()
}

/// The compact JSON text of a value, members in the order held. For a value that
/// serde_json can hold (`json_wf`), whose members come in ascending key order, this is
/// what `Value::to_string` writes.
pub open spec fn json_text(v: JsonValue) -> Seq<char>
    decreases v,
{
    match v {
        JsonValue::Null => seq!['n', 'u', 'l', 'l'],
        JsonValue::Bool(b) => if b { seq!['t', 'r', 'u', 'e'] } else { seq!['f', 'a', 'l', 's', 'e'] },
        JsonValue::Number(t) => t@,
        JsonValue::String(s) => json_quoted(s@),
        JsonValue::Array(a) => seq!['['] + json_items_text(a@) + seq![']'],
        JsonValue::Object(m) => seq!['{'] + json_members_text(m@) + seq!['}'],
    }
}

/// The texts of `items`, separated by commas.
pub open spec fn json_items_text(items: Seq<JsonValue>) -> Seq<char>
    decreases items,
{
    if items.len() == 0 {
        Seq::empty()
    } else if items.len() == 1 {
        json_text(items[0])
    } else {
        json_items_text(items.drop_last()) + seq![','] + json_text(items.last())
    }
}

/// The texts of the members `"key":value`, separated by commas.
pub open spec fn json_members_text(m: Seq<JsonMember>) -> Seq<char>
    decreases m,
{
    if m.len() == 0 {
        Seq::empty()
    } else if m.len() == 1 {
        json_quoted(m[0].key@) + seq![':'] + json_text(m[0].value)
    } else {
        json_members_text(m.drop_last()) + seq![','] + json_quoted(m.last().key@) + seq![':'] + json_text(
            m.last().value,
        )
    }
}

/// Whether `a` and `b` are the same JSON value: the same variant, the same texts, and
/// the same items or members in the same order.
pub open spec fn same_value(a: JsonValue, b: JsonValue) -> bool
    decreases a,
{
    match (a, b) {
        (JsonValue::Null, JsonValue::Null) => true,
        (JsonValue::Bool(x), JsonValue::Bool(y)) => x == y,
        (JsonValue::Number(x), JsonValue::Number(y)) => x@ == y@,
        (JsonValue::String(x), JsonValue::String(y)) => x@ == y@,
        (JsonValue::Array(x), JsonValue::Array(y)) => same_items(x@, y@),
        (JsonValue::Object(x), JsonValue::Object(y)) => same_members(x@, y@),
        _ => false,
    }
}

/// Whether `xs` and `ys` hold the same values, one for one.
pub open spec fn same_items(xs: Seq<JsonValue>, ys: Seq<JsonValue>) -> bool
    decreases xs,
{
    if xs.len() == 0 {
        ys.len() == 0
    } else {
        &&& ys.len() == xs.len()
        &&& same_items(xs.drop_last(), ys.drop_last())
        &&& same_value(xs.last(), ys.last())
    }
}

/// Whether `xs` and `ys` hold members of the same keys and the same values, one for one.
pub open spec fn same_members(xs: Seq<JsonMember>, ys: Seq<JsonMember>) -> bool
    decreases xs,
{
    if xs.len() == 0 {
        ys.len() == 0
    } else {
        &&& ys.len() == xs.len()
        &&& same_members(xs.drop_last(), ys.drop_last())
        &&& xs.last().key@ == ys.last().key@
        &&& same_value(xs.last().value, ys.last().value)
    }
}

/// A copy of `v`, built node by node.
fn copy_value(v: &JsonValue) -> (r: JsonValue)
    ensures
        same_value(*v, r),
    decreases v,
{
    match v {
        JsonValue::Null => JsonValue::Null,
        JsonValue::Bool(b) => JsonValue::Bool(*b),
        JsonValue::Number(n) => JsonValue::Number(n.clone()),
        JsonValue::String(t) => JsonValue::String(t.clone()),
        JsonValue::Array(items) => {
            let mut out: Vec<JsonValue> = Vec::new();
            let mut i: usize = 0;
            while i < items.len()
                invariant
                    i <= items@.len(),
                    *v == JsonValue::Array(*items),
                    same_items(items@.subrange(0, i as int), out@),
                decreases items.len() - i,
            {
                proof {
                    assert(decreases_to!(*v => (*v)->Array_0));
                    assert(decreases_to!(*items => items[i as int]));
                }
                let c = copy_value(&items[i]);
                let ghost before = out@;
                out.push(c);
                proof {
                    assert(items@.subrange(0, i + 1).drop_last() == items@.subrange(0, i as int));
                    assert(out@.drop_last() == before);
                }
                i = i + 1;
            }
            assert(items@.subrange(0, items@.len() as int) == items@);
            JsonValue::Array(out)
        },
        JsonValue::Object(members) => {
            let mut out: Vec<JsonMember> = Vec::new();
            let mut i: usize = 0;
            while i < members.len()
                invariant
                    i <= members@.len(),
                    *v == JsonValue::Object(*members),
                    same_members(members@.subrange(0, i as int), out@),
                decreases members.len() - i,
            {
                proof {
                    assert(decreases_to!(*v => (*v)->Object_0));
                    assert(decreases_to!(*members => members[i as int]));
                    assert(decreases_to!(members[i as int] => members[i as int].value));
                }
                let value = copy_value(&members[i].value);
                let ghost before = out@;
                out.push(JsonMember { key: members[i].key.clone(), value });
                proof {
                    assert(members@.subrange(0, i + 1).drop_last() == members@.subrange(0, i as int));
                    assert(out@.drop_last() == before);
                }
                i = i + 1;
            }
            assert(members@.subrange(0, members@.len() as int) == members@);
            JsonValue::Object(out)
        },
    }
}

impl Clone for JsonValue {
    /// A copy: the same value, built anew.
    fn clone(&self) -> (r: Self)
        ensures
            same_value(*self, r),
    {
        copy_value(self)
    }
}

impl Clone for JsonMember {
    /// A copy: the same key and the same value.
    fn clone(&self) -> (r: Self)
        ensures
            r.key == self.key,
            same_value(self.value, r.value),
    {
        JsonMember { key: self.key.clone(), value: copy_value(&self.value) }
    }
}

impl JsonValue {
    /// The value of the first member named `key`, if this is an object that has one.
    pub fn get(&self, key: &str) -> (r: Option<&JsonValue>)
        ensures
            r is Some <==> json_get(*self, key@) is Some,
            r matches Some(x) ==> json_get(*self, key@) == Some(*x),
    {
        match self {
            JsonValue::Object(m) => {
                let mut i: usize = 0;
                while i < m.len()
                    invariant
                        i <= m@.len(),
                        *self == JsonValue::Object(*m),
                        forall|j: int| 0 <= j < i ==> (#[trigger] m@[j]).key@ != key@,
                    decreases m.len() - i,
                {
                    if m[i].key == key.to_string() {
                        proof {
                            assert(m@[i as int].key@ == key@);
                            lemma_key_index(m@, key@);
                        }
                        return Some(&m[i].value);
                    }
                    i = i + 1;
                }
                proof {
                    lemma_key_index(m@, key@);
                }
                None
            },
            _ => None,
        }
    }

    /// The text of a string value.
    pub fn as_str(&self) -> (r: Option<&str>)
        ensures
            r is Some <==> self is String,
            r matches Some(s) ==> json_as_str(*self) == Some(s@),
    {
        match self {
            JsonValue::String(s) => Some(s.as_str()),
            _ => None,
        }
    }

    /// The elements of an array value.
    pub fn as_array(&self) -> (r: Option<&Vec<JsonValue>>)
        ensures
            r is Some <==> self is Array,
            r matches Some(a) ==> *self == JsonValue::Array(*a),
    {
        match self {
            JsonValue::Array(a) => Some(a),
            _ => None,
        }
    }

    /// The compact JSON text of this value, strings written by serde_json; for a value
    /// that serde_json can hold, the text of `Value::to_string`.
    pub fn to_json_string(&self) -> (r: String)
        ensures
            r@ == json_text(*self),
    {
        let mut out = String::new();
        self.write_json(&mut out);
        out
    }

    fn write_json(&self, out: &mut String)
        ensures
            final(out)@ == old(out)@ + json_text(*self),
        decreases self,
    {
        match self {
            JsonValue::Null => {
                out.append("null");
                proof { reveal_strlit("null"); }
            },
            JsonValue::Bool(b) => {
                if *b {
                    out.append("true");
                    proof { reveal_strlit("true"); }
                } else {
                    out.append("false");
                    proof { reveal_strlit("false"); }
                }
            },
            JsonValue::Number(t) => {
                out.append(t.as_str());
            },
            JsonValue::String(s) => {
                let q = string_literal(s.as_str());
                out.append(q.as_str());
            },
            JsonValue::Array(a) => {
                let ghost start = out@;
                push_char(out, '[');
                let mut i: usize = 0;
                while i < a.len()
                    invariant
                        i <= a@.len(),
                        *self == JsonValue::Array(*a),
                        out@ == start + seq!['['] + json_items_text(a@.subrange(0, i as int)),
                    decreases a.len() - i,
                {
                    let ghost before = out@;
                    if i > 0 {
                        push_char(out, ',');
                    }
                    proof {
                        assert(decreases_to!(*self => (*self)->Array_0));
                        assert(decreases_to!(*a => a[i as int]));
                        assert(decreases_to!(*self => a[i as int]));
                    }
                    a[i].write_json(out);
                    proof {
                        let s = a@.subrange(0, i + 1);
                        assert(s.drop_last() == a@.subrange(0, i as int));
                        assert(s.last() == a@[i as int]);
                        if i == 0 {
                            assert(json_items_text(a@.subrange(0, 0)) == Seq::<char>::empty());
                        }
                    }
                    i = i + 1;
                }
                assert(a@.subrange(0, a@.len() as int) == a@);
                push_char(out, ']');
            },
            JsonValue::Object(m) => {
                let ghost start = out@;
                push_char(out, '{');
                let mut i: usize = 0;
                while i < m.len()
                    invariant
                        i <= m@.len(),
                        *self == JsonValue::Object(*m),
                        out@ == start + seq!['{'] + json_members_text(m@.subrange(0, i as int)),
                    decreases m.len() - i,
                {
                    if i > 0 {
                        push_char(out, ',');
                    }
                    let q = string_literal(m[i].key.as_str());
                    out.append(q.as_str());
                    push_char(out, ':');
                    proof {
                        assert(decreases_to!(*self => (*self)->Object_0));
                        assert(decreases_to!(*m => m[i as int]));
                        assert(decreases_to!(*self => m[i as int].value));
                    }
                    m[i].value.write_json(out);
                    proof {
                        let s = m@.subrange(0, i + 1);
                        assert(s.drop_last() == m@.subrange(0, i as int));
                        assert(s.last() == m@[i as int]);
                        if i == 0 {
                            assert(json_members_text(m@.subrange(0, 0)) == Seq::<char>::empty());
                        }
                    }
                    i = i + 1;
                }
                assert(m@.subrange(0, m@.len() as int) == m@);
                push_char(out, '}');
            },
        }
    }
}

} // verus!
