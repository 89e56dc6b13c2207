//! Hints written in SQL comments, such as the error code that a test
//! statement is expected to fail with: `-- { ErrorCode 25 }`.
use vstd::prelude::*;

use crate::text::find_char;
use crate::text::find_from;
use crate::text::first_index;
use crate::text::lemma_find_from_bounds;
use crate::kv_api_key::is_digit;
use crate::kv_api_key::lemma_decimal_digits;
use crate::text::decimal;
use crate::text::digit_char;

verus! {

/// Blank characters between the words of a hint: spaces, tabs, carriage
/// returns and line feeds.
pub open spec fn is_blank(c: char) -> bool {
    c == ' ' || c == '\t' || c == '\r' || c == '\n'
}

/// The end of the run of blanks that starts at `i`.
pub open spec fn blank_run_end(s: Seq<char>, i: int) -> int
    decreases s.len() - i,
{
    if 0 <= i < s.len() && is_blank(s[i]) {
        blank_run_end(s, i + 1)
    } else {
        i
    }
}

/// The end of the run of digits that starts at `i`.
pub open spec fn digit_run_end(s: Seq<char>, i: int) -> int
    decreases s.len() - i,
{
    if 0 <= i < s.len() && is_digit(s[i]) {
        digit_run_end(s, i + 1)
    } else {
        i
    }
}

/// The number that a sequence of digits writes, most significant first.
pub open spec fn digits_value(d: Seq<char>) -> nat
    decreases d.len(),
{
    if d.len() == 0 {
        0
    } else {
        digits_value(d.drop_last()) * 10 + ((d.last() as int - '0' as int) as nat)
    }
}

/// The keyword of an error-code hint.
pub open spec fn error_code_word() -> Seq<char> {
    seq!['E', 'r', 'r', 'o', 'r', 'C', 'o', 'd', 'e']
}

/// Where the digits of an error-code hint begin: the comment holds some text
/// before a `{`, then optional blanks, the word `ErrorCode`, at least one
/// blank, and at least one digit.
pub open spec fn hint_digits_start(s: Seq<char>) -> Option<int> {
    match first_index(s, '{') {
        Some(b) => {
            let w = blank_run_end(s, b + 1);
            let e = w + 9;
            if b >= 1 && e <= s.len() && s.subrange(w, e) == error_code_word() {
                let d = blank_run_end(s, e);
                if d > e && digit_run_end(s, d) > d {
                    Some(d)
                } else {
                    None
                }
            } else {
                None
            }
        },
        None => None,
    }
}

/// What parsing the hint gives: where the rest of the comment begins, and
/// the code, which is absent when the digits exceed the range of `u16`.
pub open spec fn hint_parse(s: Seq<char>) -> Option<(int, Option<u16>)> {
    match hint_digits_start(s) {
        Some(d) => {
            let end = digit_run_end(s, d);
            let v = digits_value(s.subrange(d, end));
            Some((end, if v <= 65535 { Some(v as u16) } else { None }))
        },
        None => None,
    }
}

/// The error code that a comment announces, if it announces one.
pub open spec fn hint_error_code(s: Seq<char>) -> Option<u16> {
    match hint_parse(s) {
        Some((_, code)) => code,
        None => None,
    }
}

proof fn lemma_blank_run_end_bounds(s: Seq<char>, i: int)
    requires
        0 <= i <= s.len(),
    ensures
        i <= blank_run_end(s, i) <= s.len(),
    decreases s.len() - i,
{
    if i < s.len() && is_blank(s[i]) {
        lemma_blank_run_end_bounds(s, i + 1);
    }
}

proof fn lemma_digit_run_end_bounds(s: Seq<char>, i: int)
    requires
        0 <= i <= s.len(),
    ensures
        i <= digit_run_end(s, i) <= s.len(),
    decreases s.len() - i,
{
    if i < s.len() && is_digit(s[i]) {
        lemma_digit_run_end_bounds(s, i + 1);
    }
}

/// Skips the blanks that start at `i`.
fn skip_blanks(s: &str, n: usize, i: usize) -> (r: usize)
    requires
        n == s@.len(),
        i <= n,
    ensures
        r == blank_run_end(s@, i as int),
        i <= r <= n,
{
    let mut j: usize = i;
    while j < n
        invariant
            n == s@.len(),
            i <= j <= n,
            blank_run_end(s@, i as int) == blank_run_end(s@, j as int),
        decreases n - j,
    {
        let c = s.get_char(j);
        if !(c == ' ' || c == '\t' || c == '\r' || c == '\n') {
            return j;
        }
        j = j + 1;
    }
    j
}

/// Reads the digits that start at `i`: where they end, and their value when
/// it fits in `u16`.
fn read_digits(s: &str, n: usize, i: usize) -> (r: (usize, Option<u16>))
    requires
        n == s@.len(),
        i <= n,
    ensures
        r.0 == digit_run_end(s@, i as int),
        i <= r.0 <= n,
        ({
            let v = digits_value(s@.subrange(i as int, r.0 as int));
            r.1 == if v <= 65535 { Some(v as u16) } else { None }
        }),
{
    let mut j: usize = i;
    let mut acc: u32 = 0;
    let mut over: bool = false;
    while j < n
        invariant_except_break
            n == s@.len(),
            i <= j <= n,
            digit_run_end(s@, i as int) == digit_run_end(s@, j as int),
            over ==> digits_value(s@.subrange(i as int, j as int)) > 65535,
            !over ==> acc == digits_value(s@.subrange(i as int, j as int)) && acc <= 65535,
        ensures
            i <= j <= n,
            j == digit_run_end(s@, i as int),
            over ==> digits_value(s@.subrange(i as int, j as int)) > 65535,
            !over ==> acc == digits_value(s@.subrange(i as int, j as int)) && acc <= 65535,
        decreases n - j,
    {
        let c = s.get_char(j);
        if !('0' <= c && c <= '9') {
            break;
        }
        let d: u32 = (c as u32) - ('0' as u32);
        let ghost prev = s@.subrange(i as int, j as int);
        assert(s@.subrange(i as int, j + 1).drop_last() =~= prev);
        assert(s@.subrange(i as int, j + 1).last() == c);
        if !over {
            acc = acc * 10 + d;
            if acc > 65535 {
                over = true;
            }
        }
        j = j + 1;
    }
    if over {
        (j, None)
    } else {
        (j, Some(acc as u16))
    }
}

/// Whether the nine characters at `w` spell `ErrorCode`.
fn has_error_code_word(s: &str, n: usize, w: usize) -> (r: bool)
    requires
        n == s@.len(),
        w <= n,
    ensures
        r == (w + 9 <= n && s@.subrange(w as int, w + 9) == error_code_word()),
{
    if n - w < 9 {
        return false;
    }
    let ok = s.get_char(w) == 'E' && s.get_char(w + 1) == 'r' && s.get_char(w + 2) == 'r'
        && s.get_char(w + 3) == 'o' && s.get_char(w + 4) == 'r' && s.get_char(w + 5) == 'C'
        && s.get_char(w + 6) == 'o' && s.get_char(w + 7) == 'd' && s.get_char(w + 8) == 'e';
    proof {
        if ok {
            assert(s@.subrange(w as int, w + 9) =~= error_code_word());
        } else {
            assert(s@.subrange(w as int, w + 9) != error_code_word()) by {
                if s@.subrange(w as int, w + 9) == error_code_word() {
                    let t = s@.subrange(w as int, w + 9);
                    assert(t[0] == 'E' && t[1] == 'r' && t[2] == 'r' && t[3] == 'o' && t[4] == 'r');
                    assert(t[5] == 'C' && t[6] == 'o' && t[7] == 'd' && t[8] == 'e');
                }
            }
        }
    }
    ok
}

/// A hint read from a comment, with the comment and the prefix it was
/// written after.
#[derive(Debug, Clone)]
pub struct DfHint {
    pub error_code: Option<u16>,
    pub comment: String,
    pub prefix: String,
}

impl DfHint {
    /// Parses `{ ErrorCode <digits> }` out of a comment: the position where
    /// the rest of the comment begins and the code; `None` when the comment
    /// does not hold such a hint.
    pub fn parse_code(comment: &str) -> (r: Option<(usize, Option<u16>)>)
        ensures
            match r {
                Some((end, code)) => hint_parse(comment@) == Some((end as int, code)),
                None => hint_parse(comment@) is None,
            },
    {
        let n = comment.unicode_len();
        proof {
            lemma_find_from_bounds(comment@, '{', 0);
        }
        let b = match find_char(comment, '{') {
            Some(b) => b,
            None => return None,
        };
        if b < 1 {
            return None;
        }
        let w = skip_blanks(comment, n, b + 1);
        if !has_error_code_word(comment, n, w) {
            return None;
        }
        let e = w + 9;
        let d = skip_blanks(comment, n, e);
        if d == e {
            return None;
        }
        let (end, code) = read_digits(comment, n, d);
        if end == d {
            return None;
        }
        Some((end, code))
    }

    /// The hint of a comment: the error code it announces, if any, and the
    /// comment and prefix themselves.
    pub fn create_from_comment(comment: &str, prefix: &str) -> (r: DfHint)
        ensures
            r.error_code == hint_error_code(comment@),
            r.comment@ == comment@,
            r.prefix@ == prefix@,
    {
        let error_code = match Self::parse_code(comment) {
            Some((_, c)) => c,
            None => None,
        };
        DfHint { error_code, comment: comment.to_owned(), prefix: prefix.to_owned() }
    }
}

proof fn lemma_digits_value_decimal(n: nat)
    ensures
        digits_value(decimal(n)) == n,
    decreases n,
{
    let d = decimal(n);
    assert(d.len() >= 1) by {
        lemma_decimal_digits(n);
    }
    assert(digits_value(d) == digits_value(d.drop_last()) * 10 + ((d.last() as int - '0' as int) as nat));
    if n < 10 {
        assert(d.drop_last() =~= Seq::<char>::empty());
        assert(d.last() == digit_char(n));
        assert((digit_char(n) as int) == 48 + n);
    } else {
        lemma_digits_value_decimal(n / 10);
        assert(d.drop_last() =~= decimal(n / 10));
        assert(d.last() == digit_char(n % 10));
        assert((digit_char(n % 10) as int) == 48 + n % 10);
        assert((n / 10) * 10 + n % 10 == n);
    }
}

proof fn lemma_digit_run_end(s: Seq<char>, i: int, j: int)
    requires
        0 <= i <= j <= s.len(),
        forall|k: int| i <= k < j ==> is_digit(#[trigger] s[k]),
        j == s.len() || !is_digit(s[j]),
    ensures
        digit_run_end(s, i) == j,
    decreases j - i,
{
    if i < j {
        lemma_digit_run_end(s, i + 1, j);
    }
}

/// The comment ` { ErrorCode <n> }` for a code `n`.
pub open spec fn code_hint(n: u16) -> Seq<char> {
    seq![' ', '{', ' '] + error_code_word() + seq![' '] + decimal(n as nat) + seq![' ', '}']
}

/// A comment that announces an error code is read back as that code.
pub proof fn law_hint_reads_its_code(n: u16)
    ensures
        hint_error_code(code_hint(n)) == Some(n),
{
    let d = decimal(n as nat);
    let s = code_hint(n);
    let l = d.len() as int;
    lemma_decimal_digits(n as nat);
    assert(s.len() == 15 + l);
    assert(s[0] == ' ' && s[1] == '{' && s[2] == ' ' && s[3] == 'E' && s[12] == ' ');
    assert(find_from(s, '{', 1) == Some(1int));
    assert(first_index(s, '{') == Some(1int));
    assert(blank_run_end(s, 3) == 3);
    assert(blank_run_end(s, 2) == 3);
    assert(s.subrange(3, 12) =~= error_code_word());
    assert forall|k: int| 13 <= k < 13 + l implies is_digit(#[trigger] s[k]) by {
        assert(s[k] == d[k - 13]);
    }
    assert(s[13] == d[0]);
    assert(blank_run_end(s, 13) == 13);
    assert(blank_run_end(s, 12) == 13);
    assert(s[13 + l] == ' ');
    lemma_digit_run_end(s, 13, 13 + l);
    assert(s.subrange(13, 13 + l) =~= d);
    lemma_digits_value_decimal(n as nat);
}

} // verus!
