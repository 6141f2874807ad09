//! Character-level text helpers shared by the formatters.
use vstd::prelude::*;

verus! {

/// Whether `c` has the Unicode `White_Space` property, which is what
/// `char::is_whitespace` and `str::trim` test.
pub open spec fn is_ws(c: char) -> bool {
    ||| c == '\t' || c == '\n' || c == '\x0B' || c == '\x0C' || c == '\r' || c == ' '
    ||| c == '\u{85}' || c == '\u{A0}' || c == '\u{1680}'
    ||| ('\u{2000}' <= c && c <= '\u{200A}')
    ||| c == '\u{2028}' || c == '\u{2029}' || c == '\u{202F}' || c == '\u{205F}' || c == '\u{3000}'
}

/// `s` with its trailing whitespace removed.
pub open spec fn trim_end_seq(s: Seq<char>) -> Seq<char>
    decreases s.len(),
{
    if s.len() > 0 && is_ws(s.last()) {
        trim_end_seq(s.drop_last())
    } else {
        s
    }
}

/// `s` with its leading whitespace removed.
pub open spec fn trim_start_seq(s: Seq<char>) -> Seq<char>
    decreases s.len(),
{
    if s.len() > 0 && is_ws(s[0]) {
        trim_start_seq(s.drop_first())
    } else {
        s
    }
}

/// `s` with leading and trailing whitespace removed, as `str::trim` gives it.
pub open spec fn trim_seq(s: Seq<char>) -> Seq<char> {
    trim_start_seq(trim_end_seq(s))
}

/// Whether every character of `s` is whitespace.
pub open spec fn is_blank(s: Seq<char>) -> bool {
    forall|i: int| 0 <= i < s.len() ==> is_ws(#[trigger] s[i])
}

/// `s` written `n` times in a row.
pub open spec fn repeat_seq(s: Seq<char>, n: nat) -> Seq<char>
    decreases n,
{
    if n == 0 {
        Seq::empty()
    } else {
        repeat_seq(s, (n - 1) as nat) + s
    }
}

/// The decimal digit for `d` (taken modulo ten).
pub open spec fn digit_char(d: nat) -> char {
    let m = d % 10;
    if m == 0 { '0' } else if m == 1 { '1' } else if m == 2 { '2' } else if m == 3 { '3' }
    else if m == 4 { '4' } else if m == 5 { '5' } else if m == 6 { '6' } else if m == 7 { '7' }
    else if m == 8 { '8' } else { '9' }
}

/// The decimal form of `n`, with no leading zeros, as `Display` writes an unsigned integer.
pub open spec fn decimal_seq(n: nat) -> Seq<char>
    decreases n,
{
    if n < 10 {
        seq![digit_char(n)]
    } else {
        decimal_seq(n / 10).push(digit_char(n % 10))
    }
}

/// Appends one character to a string (`String::push`).
#[verifier::external_body]
pub(crate) fn push_char(s: &mut String, c: char)
    ensures
        final(s)@ == old(s)@.push(c),
{
    s.push(c);
}

/// Whether `c` is whitespace (`char::is_whitespace`).
pub fn char_is_ws(c: char) -> (b: bool)
    ensures
        b == is_ws(c),
{
    c == '\t' || c == '\n' || c == '\x0B' || c == '\x0C' || c == '\r' || c == ' ' || c == '\u{85}'
        || c == '\u{A0}' || c == '\u{1680}' || ('\u{2000}' <= c && c <= '\u{200A}') || c
        == '\u{2028}' || c == '\u{2029}' || c == '\u{202F}' || c == '\u{205F}' || c == '\u{3000}'
}

/// The characters of `s`, in order.
pub fn str_chars(s: &str) -> (v: Vec<char>)
    ensures
        v@ == s@,
{
    let mut v: Vec<char> = Vec::new();
    for c in it: s.chars()
        invariant
            v@ == it.seq().take(it.index() as int),
    {
        v.push(c);
    }
    v
}


/// A string holding exactly the characters of `v`.
pub fn string_from_chars(v: &[char]) -> (s: String)
    ensures
        s@ == v@,
{
    string_from_range(v, 0, v.len())
}

/// A string holding the characters `v[from..to]`.
pub fn string_from_range(v: &[char], from: usize, to: usize) -> (s: String)
    requires
        from <= to <= v@.len(),
    ensures
        s@ == v@.subrange(from as int, to as int),
{
    let mut s = String::new();
    let mut i = from;
    while i < to
        invariant
            from <= i <= to <= v@.len(),
            s@ == v@.subrange(from as int, i as int),
        decreases to - i,
    {
        push_char(&mut s, v[i]);
        assert(v@.subrange(from as int, i + 1) == v@.subrange(from as int, i as int).push(v@[i as int]));
        i = i + 1;
    }
    s
}

/// Removing trailing whitespace keeps a prefix, and what it cut was whitespace.
pub proof fn lemma_trim_end_prefix(s: Seq<char>)
    ensures
        trim_end_seq(s).len() <= s.len(),
        trim_end_seq(s) == s.subrange(0, trim_end_seq(s).len() as int),
        forall|i: int| trim_end_seq(s).len() <= i < s.len() ==> is_ws(#[trigger] s[i]),
        trim_end_seq(s).len() > 0 ==> !is_ws(trim_end_seq(s).last()),
    decreases s.len(),
{
    if s.len() > 0 && is_ws(s.last()) {
        lemma_trim_end_prefix(s.drop_last());
        assert forall|i: int| trim_end_seq(s).len() <= i < s.len() implies is_ws(#[trigger] s[i]) by {
            if i < s.len() - 1 {
                assert(s.drop_last()[i] == s[i]);
            }
        }
    }
}

/// Removing leading whitespace keeps a suffix, and what it cut was whitespace.
pub proof fn lemma_trim_start_suffix(s: Seq<char>)
    ensures
        trim_start_seq(s).len() <= s.len(),
        trim_start_seq(s) == s.subrange(s.len() - trim_start_seq(s).len(), s.len() as int),
        forall|i: int| 0 <= i < s.len() - trim_start_seq(s).len() ==> is_ws(#[trigger] s[i]),
        trim_start_seq(s).len() > 0 ==> !is_ws(trim_start_seq(s)[0]),
    decreases s.len(),
{
    if s.len() > 0 && is_ws(s[0]) {
        lemma_trim_start_suffix(s.drop_first());
        assert forall|i: int| 0 <= i < s.len() - trim_start_seq(s).len() implies is_ws(#[trigger] s[i]) by {
            if i > 0 {
                assert(s.drop_first()[i - 1] == s[i]);
            }
        }
    }
}

/// The end-trimmed prefix of `s` is fixed by where its last non-whitespace character stands.
proof fn lemma_trim_end_at(s: Seq<char>, k: int)
    requires
        0 <= k <= s.len(),
        forall|i: int| k <= i < s.len() ==> is_ws(#[trigger] s[i]),
        k > 0 ==> !is_ws(s[k - 1]),
    ensures
        trim_end_seq(s) == s.subrange(0, k),
    decreases s.len(),
{
    if s.len() > k {
        assert(is_ws(s[s.len() - 1]));
        assert forall|i: int| k <= i < s.drop_last().len() implies is_ws(#[trigger] s.drop_last()[i]) by {
            assert(s.drop_last()[i] == s[i]);
        }
        lemma_trim_end_at(s.drop_last(), k);
        assert(s.drop_last().subrange(0, k) == s.subrange(0, k));
    } else {
        assert(s.subrange(0, k) == s);
    }
}

/// The start-trimmed suffix of `s` is fixed by where its first non-whitespace character stands.
proof fn lemma_trim_start_at(s: Seq<char>, k: int)
    requires
        0 <= k <= s.len(),
        forall|i: int| 0 <= i < k ==> is_ws(#[trigger] s[i]),
        k < s.len() ==> !is_ws(s[k]),
    ensures
        trim_start_seq(s) == s.subrange(k, s.len() as int),
    decreases s.len(),
{
    if k > 0 {
        assert(is_ws(s[0]));
        assert forall|i: int| 0 <= i < k - 1 implies is_ws(#[trigger] s.drop_first()[i]) by {
            assert(s.drop_first()[i] == s[i + 1]);
        }
        lemma_trim_start_at(s.drop_first(), k - 1);
        assert(s.drop_first().subrange(k - 1, s.drop_first().len() as int) == s.subrange(k, s.len() as int));
    } else {
        assert(s.subrange(0, s.len() as int) == s);
    }
}

/// The position just after the last non-whitespace character of `v`.
fn trimmed_end_index(v: &[char]) -> (k: usize)
    ensures
        k <= v@.len(),
        trim_end_seq(v@) == v@.subrange(0, k as int),
{
    let mut k = v.len();
    while k > 0 && char_is_ws(v[k - 1])
        invariant
            k <= v@.len(),
            forall|i: int| k <= i < v@.len() ==> is_ws(#[trigger] v@[i]),
        decreases k,
    {
        k = k - 1;
    }
    proof {
        lemma_trim_end_at(v@, k as int);
    }
    k
}

/// The position of the first non-whitespace character of `v[..end]`, or `end`.
fn trimmed_start_index(v: &[char], end: usize) -> (k: usize)
    requires
        end <= v@.len(),
    ensures
        k <= end,
        trim_start_seq(v@.subrange(0, end as int)) == v@.subrange(k as int, end as int),
{
    let ghost s = v@.subrange(0, end as int);
    let mut k: usize = 0;
    while k < end && char_is_ws(v[k])
        invariant
            k <= end <= v@.len(),
            s == v@.subrange(0, end as int),
            forall|i: int| 0 <= i < k ==> is_ws(#[trigger] s[i]),
        decreases end - k,
    {
        k = k + 1;
    }
    proof {
        lemma_trim_start_at(s, k as int);
        assert(s.subrange(k as int, s.len() as int) == v@.subrange(k as int, end as int));
    }
    k
}

/// `s` without its trailing whitespace (`str::trim_end`).
pub fn trim_end(s: &str) -> (r: String)
    ensures
        r@ == trim_end_seq(s@),
{
    let v = str_chars(s);
    let k = trimmed_end_index(v.as_slice());
    string_from_range(v.as_slice(), 0, k)
}

/// `s` without its leading and trailing whitespace (`str::trim`).
pub fn trim(s: &str) -> (r: String)
    ensures
        r@ == trim_seq(s@),
{
    let v = str_chars(s);
    let e = trimmed_end_index(v.as_slice());
    let b = trimmed_start_index(v.as_slice(), e);
    string_from_range(v.as_slice(), b, e)
}

/// Whether `s` is empty once trimmed, that is, all whitespace.
pub fn is_blank_str(s: &str) -> (b: bool)
    ensures
        b == (trim_seq(s@).len() == 0),
        b == is_blank(s@),
{
    let v = str_chars(s);
    let e = trimmed_end_index(v.as_slice());
    proof {
        lemma_trim_end_prefix(s@);
        if e > 0 {
            lemma_trim_start_suffix(trim_end_seq(s@));
            assert(!is_ws(s@[e - 1]));
        }
    }
    e == 0
}

/// `s` written `n` times in a row (`str::repeat`).
pub fn repeat_str(s: &str, n: usize) -> (r: String)
    ensures
        r@ == repeat_seq(s@, n as nat),
{
    let mut r = String::new();
    let mut i: usize = 0;
    while i < n
        invariant
            i <= n,
            r@ == repeat_seq(s@, i as nat),
        decreases n - i,
    {
        r.append(s);
        i = i + 1;
    }
    r
}

/// The decimal digit for `d < 10`.
fn digit(d: u64) -> (c: char)
    requires
        d < 10,
    ensures
        c == digit_char(d as nat),
{
    if d == 0 { '0' } else if d == 1 { '1' } else if d == 2 { '2' } else if d == 3 { '3' }
    else if d == 4 { '4' } else if d == 5 { '5' } else if d == 6 { '6' } else if d == 7 { '7' }
    else if d == 8 { '8' } else { '9' }
}

/// The decimal form of `n` (`u64::to_string`).
pub fn u64_to_decimal(n: u64) -> (r: String)
    ensures
        r@ == decimal_seq(n as nat),
    decreases n,
{
    if n < 10 {
        let mut r = String::new();
        push_char(&mut r, digit(n));
        r
    } else {
        let mut r = u64_to_decimal(n / 10);
        push_char(&mut r, digit(n % 10));
        r
    }
}

} // verus!

verus! {

/// `s` with every trailing `'/'` removed (`trim_end_matches('/')`).
pub open spec fn trim_trailing_slashes(s: Seq<char>) -> Seq<char>
    decreases s.len(),
{
    if s.len() > 0 && s.last() == '/' {
        trim_trailing_slashes(s.drop_last())
    } else {
        s
    }
}

/// `s` without its trailing slashes.
pub fn trim_end_slashes(s: &str) -> (r: String)
    ensures
        r@ == trim_trailing_slashes(s@),
{
    let v = str_chars(s);
    let mut k = v.len();
    assert(v@.subrange(0, k as int) == v@);
    while k > 0 && v[k - 1] == '/'
        invariant
            k <= v@.len(),
            v@ == s@,
            trim_trailing_slashes(s@) == trim_trailing_slashes(v@.subrange(0, k as int)),
        decreases k,
    {
        proof {
            assert(v@.subrange(0, k as int).drop_last() == v@.subrange(0, k - 1));
        }
        k = k - 1;
    }
    string_from_range(v.as_slice(), 0, k)
}

/// The concatenation of `a` and `b`.
pub fn concat2(a: &str, b: &str) -> (r: String)
    ensures
        r@ == a@ + b@,
{
    let mut r = a.to_string();
    r.append(b);
    r
}

/// The concatenation of `a`, `b` and `c`.
pub fn concat3(a: &str, b: &str, c: &str) -> (r: String)
    ensures
        r@ == a@ + b@ + c@,
{
    let mut r = a.to_string();
    r.append(b);
    r.append(c);
    r
}

} // verus!

verus! {

/// Whether two texts are the same.
pub fn same_text(a: &str, b: &str) -> (r: bool)
    ensures
        r == (a@ == b@),
{
    a.to_string() == b.to_string()
}

/// What `str::to_lowercase` gives for `s`: the full Unicode lowercase mapping.
pub uninterp spec fn lowercase(s: Seq<char>) -> Seq<char>;

/// Whether every character of `s` is ASCII.
pub open spec fn is_ascii_seq(s: Seq<char>) -> bool {
    forall|i: int| 0 <= i < s.len() ==> (#[trigger] s[i] as u32) < 128
}

/// `c` with an ASCII capital letter made small; any other character unchanged.
pub open spec fn ascii_lower_char(c: char) -> char {
    if 'A' <= c && c <= 'Z' {
        ((c as u32) + 32) as char
    } else {
        c
    }
}

/// `s` with its ASCII capital letters made small.
pub open spec fn ascii_lower(s: Seq<char>) -> Seq<char> {
    s.map_values(|c: char| ascii_lower_char(c))
}

/// `s` in lowercase (`str::to_lowercase`). As std documents it (`to_ascii_lowercase`
/// sends to `to_lowercase` for lowercasing ASCII characters, and `"HELLO"` gives
/// `"hello"`), an ASCII text comes back with `'A'..='Z'` made `'a'..='z'` and everything
/// else as it was; of other texts only the name `lowercase` is promised.
#[verifier::external_body]
pub(crate) fn to_lowercase(s: &str) -> (r: String)
    ensures
        r@ == lowercase(s@),
        is_ascii_seq(s@) ==> r@ == ascii_lower(s@),
{
    s.to_lowercase()
}

} // verus!

verus! {

/// The pieces of `s` between its `'\n'` characters (`str::split('\n')`): one more piece
/// than there are newlines.
pub open spec fn split_newlines(s: Seq<char>) -> Seq<Seq<char>>
    decreases s.len(),
{
    if s.len() == 0 {
        seq![Seq::empty()]
    } else {
        let p = split_newlines(s.drop_last());
        if s.last() == '\n' {
            p.push(Seq::empty())
        } else {
            p.update(p.len() - 1, p.last().push(s.last()))
        }
    }
}

/// A line that ended in a newline, without the `'\r'` of a `"\r\n"` ending.
pub open spec fn strip_cr(l: Seq<char>) -> Seq<char> {
    if l.len() > 0 && l.last() == '\r' {
        l.drop_last()
    } else {
        l
    }
}

/// The lines of `s` as `str::lines` gives them: split at `"\n"` or `"\r\n"`, with no
/// empty line after a final line ending, and none at all for an empty text.
pub open spec fn lines_seq(s: Seq<char>) -> Seq<Seq<char>> {
    let p = split_newlines(s);
    let ended = p.drop_last().map_values(|l: Seq<char>| strip_cr(l));
    if p.last().len() == 0 {
        ended
    } else {
        ended.push(p.last())
    }
}

proof fn lemma_split_newlines_len(s: Seq<char>)
    ensures
        split_newlines(s).len() >= 1,
    decreases s.len(),
{
    if s.len() > 0 {
        lemma_split_newlines_len(s.drop_last());
    }
}

/// A line without the `'\r'` of a `"\r\n"` ending.
fn strip_cr_string(v: &Vec<char>) -> (r: String)
    ensures
        r@ == strip_cr(v@),
{
    if v.len() > 0 && v[v.len() - 1] == '\r' {
        string_from_range(v.as_slice(), 0, v.len() - 1)
    } else {
        string_from_range(v.as_slice(), 0, v.len())
    }
}

/// The lines of `s` (`str::lines`).
pub fn lines(s: &str) -> (r: Vec<String>)
    ensures
        r@.len() == lines_seq(s@).len(),
        forall|i: int| 0 <= i < r@.len() ==> (#[trigger] r@[i])@ == lines_seq(s@)[i],
{
    let chars = str_chars(s);
    let mut out: Vec<String> = Vec::new();
    let mut cur: Vec<char> = Vec::new();
    let mut i: usize = 0;
    proof {
        assert(chars@.subrange(0, 0) == Seq::<char>::empty());
    }
    while i < chars.len()
        invariant
            i <= chars@.len(),
            chars@ == s@,
            split_newlines(chars@.subrange(0, i as int)).len() == out@.len() + 1,
            split_newlines(chars@.subrange(0, i as int)).last() == cur@,
            forall|k: int| 0 <= k < out@.len() ==> (#[trigger] out@[k])@ == strip_cr(
                split_newlines(chars@.subrange(0, i as int))[k],
            ),
        decreases chars.len() - i,
    {
        let c = chars[i];
        let ghost pre = chars@.subrange(0, i as int);
        let ghost next = chars@.subrange(0, i + 1);
        proof {
            assert(next.drop_last() == pre);
            assert(next.last() == c);
            lemma_split_newlines_len(pre);
        }
        if c == '\n' {
            let line = strip_cr_string(&cur);
            out.push(line);
            cur = Vec::new();
            proof {
                assert forall|k: int| 0 <= k < out@.len() implies (#[trigger] out@[k])@ == strip_cr(
                    split_newlines(next)[k],
                ) by {
                    if k < out@.len() - 1 {
                        assert(split_newlines(next)[k] == split_newlines(pre)[k]);
                    }
                }
            }
        } else {
            cur.push(c);
            proof {
                let p = split_newlines(pre);
                assert forall|k: int| 0 <= k < out@.len() implies (#[trigger] out@[k])@ == strip_cr(
                    split_newlines(next)[k],
                ) by {
                    assert(split_newlines(next)[k] == p[k]);
                }
            }
        }
        i = i + 1;
    }
    proof {
        assert(chars@.subrange(0, chars@.len() as int) == s@);
        lemma_split_newlines_len(s@);
    }
    if cur.len() > 0 {
        let last = string_from_range(cur.as_slice(), 0, cur.len());
        out.push(last);
    }
    proof {
        let p = split_newlines(s@);
        let ended = p.drop_last().map_values(|l: Seq<char>| strip_cr(l));
        assert(ended.len() == out@.len() - (if cur@.len() > 0 { 1int } else { 0 }));
        assert forall|k: int| 0 <= k < out@.len() implies (#[trigger] out@[k])@ == lines_seq(s@)[k] by {
            if k < ended.len() {
                assert(ended[k] == strip_cr(p[k]));
            }
        }
    }
    out
}

} // verus!

verus! {

/// The text of an optional string.
pub open spec fn opt_text(o: Option<String>) -> Option<Seq<char>> {
    match o {
        Some(s) => Some(s@),
        None => None,
    }
}

/// A copy of an optional string, with the same text.
pub fn copy_opt_text(o: &Option<String>) -> (r: Option<String>)
    ensures
        r == *o,
{
    match o {
        Some(s) => Some(s.clone()),
        None => None,
    }
}

} // verus!

verus! {

/// A text without trailing slashes ends in no slash, and dropping them again changes
/// nothing.
pub proof fn lemma_trailing_slashes_gone(s: Seq<char>)
    ensures
        trim_trailing_slashes(s).len() > 0 ==> trim_trailing_slashes(s).last() != '/',
        trim_trailing_slashes(trim_trailing_slashes(s)) == trim_trailing_slashes(s),
    decreases s.len(),
{
    if s.len() > 0 && s.last() == '/' {
        lemma_trailing_slashes_gone(s.drop_last());
    }
}

} // verus!
