//! The settings of the service client: where Jira is, who calls it, and page sizes.
use vstd::prelude::*;

verus! {

/// How to reach Jira.
#[derive(Debug, Clone)]
pub struct JiraConfig {
    pub base_url: String,
    pub username: String,
    pub api_token: String,
    pub board_id: String,
    pub max_results: usize,
}

/// The value of a decimal digit character, if it is one.
pub open spec fn digit_value(c: char) -> Option<nat> {
    if '0' <= c && c <= '9' {
        Some((c as nat - '0' as nat) as nat)
    } else {
        None
    }
}

/// Whether every character of `s` is a decimal digit.
pub open spec fn all_digits(s: Seq<char>) -> bool {
    forall|i: int| 0 <= i < s.len() ==> #[trigger] digit_value(s[i]) is Some
}

/// The number that the decimal digits `s` write.
pub open spec fn digits_value(s: Seq<char>) -> nat
    decreases s.len(),
{
    if s.len() == 0 {
        0
    } else {
        digits_value(s.drop_last()) * 10 + digit_value(s.last())->0
    }
}

/// The digits of an unsigned number's text: `s` without one leading `+`.
pub open spec fn unsigned_digits(s: Seq<char>) -> Seq<char> {
    if s.len() > 0 && s[0] == '+' {
        s.drop_first()
    } else {
        s
    }
}

/// What `str::parse::<usize>` gives: the value of an optional `+` followed by at least
/// one decimal digit, where it fits in a `usize`.
pub open spec fn parsed_usize(s: Seq<char>) -> Option<usize> {
    let d = unsigned_digits(s);
    if d.len() > 0 && all_digits(d) && digits_value(d) <= usize::MAX {
        Some(digits_value(d) as usize)
    } else {
        None
    }
}

proof fn lemma_digits_value_grows(s: Seq<char>, t: Seq<char>)
    requires
        all_digits(s + t),
    ensures
        digits_value(s) <= digits_value(s + t),
    decreases t.len(),
{
    if t.len() > 0 {
        assert((s + t).drop_last() == s + t.drop_last());
        assert(all_digits(s + t.drop_last())) by {
            assert forall|i: int| 0 <= i < (s + t.drop_last()).len() implies #[trigger] digit_value(
                (s + t.drop_last())[i],
            ) is Some by {
                assert((s + t.drop_last())[i] == (s + t)[i]);
            }
        }
        lemma_digits_value_grows(s, t.drop_last());
    } else {
        assert(s + t == s);
    }
}

/// A two-digit text reads as its number.
pub proof fn lemma_parsed_two_digits(a: char, b: char)
    requires
        '0' <= a <= '9',
        '0' <= b <= '9',
    ensures
        parsed_usize(seq![a, b]) == Some(((a as nat - '0' as nat) * 10 + (b as nat - '0' as nat)) as usize),
{
    let s = seq![a, b];
    assert(unsigned_digits(s) == s);
    assert(s.drop_last() =~= seq![a]);
    assert(seq![a].drop_last() =~= Seq::<char>::empty());
    assert(digits_value(Seq::<char>::empty()) == 0);
    assert(seq![a].last() == a);
    assert(s.last() == b);
    assert(digits_value(seq![a]) == digit_value(a)->0);
    assert(all_digits(s));
}

/// Reads a `usize` written in decimal (`str::parse::<usize>`).
pub fn parse_usize(s: &str) -> (r: Option<usize>)
    ensures
        r == parsed_usize(s@),
{
    let chars = crate::text::str_chars(s);
    let start: usize = if chars.len() > 0 && chars[0] == '+' { 1 } else { 0 };
    let ghost d = unsigned_digits(s@);
    assert(d == chars@.subrange(start as int, chars@.len() as int));
    if start >= chars.len() {
        return None;
    }
    let mut value: usize = 0;
    let mut i = start;
    while i < chars.len()
        invariant
            start <= i <= chars@.len(),
            chars@ == s@,
            d == chars@.subrange(start as int, chars@.len() as int),
            d == unsigned_digits(s@),
            all_digits(chars@.subrange(start as int, i as int)),
            value as nat == digits_value(chars@.subrange(start as int, i as int)),
        decreases chars.len() - i,
    {
        let c = chars[i];
        let ghost prefix = chars@.subrange(start as int, i as int);
        let ghost next = chars@.subrange(start as int, i + 1);
        assert(next.drop_last() == prefix);
        assert(next.last() == c);
        if c < '0' || c > '9' {
            assert(d[i - start] == c);
            assert(digit_value(d[i - start]) is None);
            return None;
        }
        assert(all_digits(next)) by {
            assert forall|j: int| 0 <= j < next.len() implies #[trigger] digit_value(next[j]) is Some by {
                if j < prefix.len() {
                    assert(next[j] == prefix[j]);
                }
            }
        }
        let dv = ((c as u32) - ('0' as u32)) as usize;
        if value > (usize::MAX - dv) / 10 {
            proof {
                assert(digits_value(next) == value * 10 + dv);
                assert(value * 10 + dv > usize::MAX) by (nonlinear_arith)
                    requires
                        value > (usize::MAX - dv) / 10,
                        dv <= 9,
                ;
                assert(d == next + chars@.subrange(i + 1, chars@.len() as int));
                if all_digits(d) {
                    lemma_digits_value_grows(next, chars@.subrange(i + 1, chars@.len() as int));
                }
            }
            return None;
        }
        proof {
            assert(value * 10 + dv <= usize::MAX) by (nonlinear_arith)
                requires
                    value <= (usize::MAX - dv) / 10,
                    dv <= 9,
            ;
        }
        value = value * 10 + dv;
        i = i + 1;
    }
    Some(value)
}

impl JiraConfig {
    /// The settings given by the environment's values, each `None` where unset: a missing
    /// text takes its placeholder, and a missing or unreadable page size becomes 25.
    pub fn from_values(
        base_url: Option<String>,
        username: Option<String>,
        api_token: Option<String>,
        board_id: Option<String>,
        max_results: Option<String>,
    ) -> (r: JiraConfig)
        ensures
            r.base_url@ == (match base_url {
                Some(v) => v@,
                None => "https://your-domain.atlassian.net"@,
            }),
            r.username@ == (match username {
                Some(v) => v@,
                None => "your-email@example.com"@,
            }),
            r.api_token@ == (match api_token {
                Some(v) => v@,
                None => "your-api-token"@,
            }),
            r.board_id@ == (match board_id {
                Some(v) => v@,
                None => "1"@,
            }),
            r.max_results == (match max_results {
                Some(v) => match parsed_usize(v@) {
                    Some(n) => n,
                    None => 25,
                },
                None => 25,
            }),
    {
        proof {
            lemma_parsed_two_digits('2', '5');
            reveal_strlit("25");
            assert("25"@ =~= seq!['2', '5']);
        }
        let max_text = match max_results {
            Some(v) => v,
            None => "25".to_string(),
        };
        let max_results_value = match parse_usize(max_text.as_str()) {
            Some(n) => n,
            None => 25,
        };
        JiraConfig {
            base_url: match base_url {
                Some(v) => v,
                None => "https://your-domain.atlassian.net".to_string(),
            },
            username: match username {
                Some(v) => v,
                None => "your-email@example.com".to_string(),
            },
            api_token: match api_token {
                Some(v) => v,
                None => "your-api-token".to_string(),
            },
            board_id: match board_id {
                Some(v) => v,
                None => "1".to_string(),
            },
            max_results: max_results_value,
        }
    }
}

impl Default for JiraConfig {
    /// The placeholder settings, with board 1 and pages of 50.
    fn default() -> (r: Self)
        ensures
            r.base_url@ == "https://your-domain.atlassian.net"@,
            r.username@ == "your-email@example.com"@,
            r.api_token@ == "your-api-token"@,
            r.board_id@ == "1"@,
            r.max_results == 50,
    {
        JiraConfig {
            base_url: "https://your-domain.atlassian.net".to_string(),
            username: "your-email@example.com".to_string(),
            api_token: "your-api-token".to_string(),
            board_id: "1".to_string(),
            max_results: 50,
        }
    }
}

} // verus!

verus! {

proof fn lemma_digit_value_of_digit(d: nat)
    requires
        d < 10,
    ensures
        digit_value(crate::text::digit_char(d)) == Some(d),
{
}

proof fn lemma_decimal_digits(n: nat)
    ensures
        crate::text::decimal_seq(n).len() > 0,
        all_digits(crate::text::decimal_seq(n)),
        digits_value(crate::text::decimal_seq(n)) == n,
        crate::text::decimal_seq(n)[0] != '+',
    decreases n,
{
    let s = crate::text::decimal_seq(n);
    if n < 10 {
        lemma_digit_value_of_digit(n);
        assert(s == seq![crate::text::digit_char(n)]);
        assert(s.drop_last() =~= Seq::<char>::empty());
        assert(digits_value(Seq::<char>::empty()) == 0);
    } else {
        let p = crate::text::decimal_seq(n / 10);
        lemma_decimal_digits(n / 10);
        lemma_digit_value_of_digit(n % 10);
        assert(s == p.push(crate::text::digit_char(n % 10)));
        assert(s.drop_last() =~= p);
        assert(all_digits(s)) by {
            assert forall|i: int| 0 <= i < s.len() implies #[trigger] digit_value(s[i]) is Some by {
                if i < p.len() {
                    assert(s[i] == p[i]);
                }
            }
        }
        assert(s[0] == p[0]);
    }
}

/// A number's decimal text (as `u64::to_string` writes it) reads back as that number.
pub proof fn lemma_decimal_reads_back(n: usize)
    ensures
        parsed_usize(crate::text::decimal_seq(n as nat)) == Some(n),
{
    lemma_decimal_digits(n as nat);
}

} // verus!
