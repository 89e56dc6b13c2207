//! Keys of the meta service's key-value store: segments joined by `/`, the
//! name segments escaped so that they hold no `/`, and the helpers that
//! take keys apart again.
use vstd::prelude::*;
use vstd::utf8::encode_utf8;
use vstd::utf8::valid_utf8;

use crate::data_type::names_view;
use crate::text::push_char;
use crate::text::push_chars;
use crate::text::decimal;
use crate::text::digit_char;

verus! {

broadcast use vstd::utf8::group_utf8_lib;

/// Why a key could not be taken apart.
#[allow(inconsistent_fields)]
#[derive(Debug)]
pub enum KVApiKeyError {
    /// An unescaped name segment is not UTF-8.
    FromUtf8Error,
    /// The `i`-th segment should be `expect`, but is `got`.
    InvalidSegment { i: usize, expect: String, got: String },
    /// The key should have `expect` segments; `got` is the key.
    WrongNumberOfSegments { expect: usize, got: String },
    /// `s` is not an id; `reason` says why.
    InvalidId { s: String, reason: String },
}

/// What a key error is.
pub enum KeyErrorView {
    FromUtf8Error,
    InvalidSegment(nat, Seq<char>, Seq<char>),
    WrongNumberOfSegments(nat, Seq<char>),
    InvalidId(Seq<char>, Seq<char>),
}

impl View for KVApiKeyError {
    type V = KeyErrorView;

    open spec fn view(&self) -> KeyErrorView {
        match self {
            KVApiKeyError::FromUtf8Error => KeyErrorView::FromUtf8Error,
            KVApiKeyError::InvalidSegment { i, expect, got } => KeyErrorView::InvalidSegment(*i as nat, expect@, got@),
            KVApiKeyError::WrongNumberOfSegments { expect, got } => KeyErrorView::WrongNumberOfSegments(*expect as nat, got@),
            KVApiKeyError::InvalidId { s, reason } => KeyErrorView::InvalidId(s@, reason@),
        }
    }
}

/// Bytes that a name segment keeps as they are: ASCII letters, digits and `_`.
pub open spec fn is_plain_byte(b: u8) -> bool {
    (48 <= b <= 57) || (65 <= b <= 90) || (97 <= b <= 122) || b == 95
}

/// The lowercase hexadecimal digit of a number below 16.
pub open spec fn hex_char(n: nat) -> char {
    if n < 10 { (48 + n) as char } else { (97 + n - 10) as char }
}

/// The escaped form of a byte: the byte itself if it is plain, else `%`
/// and its two lowercase hexadecimal digits.
pub open spec fn escape_byte(b: u8) -> Seq<char> {
    if is_plain_byte(b) {
        seq![b as char]
    } else {
        seq!['%', hex_char((b / 16) as nat), hex_char((b % 16) as nat)]
    }
}

/// The escaped form of bytes, byte by byte.
pub open spec fn escape_bytes(bs: Seq<u8>) -> Seq<char>
    decreases bs.len(),
{
    if bs.len() == 0 {
        Seq::empty()
    } else {
        escape_byte(bs[0]) + escape_bytes(bs.subrange(1, bs.len() as int))
    }
}

/// The value of a lowercase hexadecimal digit.
pub open spec fn hex_value(b: u8) -> Option<nat> {
    if 48 <= b <= 57 {
        Some((b - 48) as nat)
    } else if 97 <= b <= 102 {
        Some((b - 97 + 10) as nat)
    } else {
        None
    }
}

/// The bytes that escaped bytes stand for: `%` and two lowercase
/// hexadecimal digits stand for one byte; any other byte for itself.
pub open spec fn unescape_bytes(bs: Seq<u8>) -> Seq<u8>
    decreases bs.len(),
{
    if bs.len() == 0 {
        Seq::empty()
    } else if bs[0] == 37 && bs.len() >= 3 && hex_value(bs[1]) is Some && hex_value(bs[2]) is Some {
        seq![(hex_value(bs[1])->0 * 16 + hex_value(bs[2])->0) as u8] + unescape_bytes(bs.subrange(3, bs.len() as int))
    } else {
        seq![bs[0]] + unescape_bytes(bs.subrange(1, bs.len() as int))
    }
}

/// Escaping distributes over concatenation.
pub proof fn lemma_escape_bytes_concat(a: Seq<u8>, b: Seq<u8>)
    ensures
        escape_bytes(a + b) == escape_bytes(a) + escape_bytes(b),
    decreases a.len(),
{
    if a.len() == 0 {
        assert(a + b =~= b);
    } else {
        lemma_escape_bytes_concat(a.subrange(1, a.len() as int), b);
        assert((a + b).subrange(1, (a + b).len() as int) =~= a.subrange(1, a.len() as int) + b);
        assert(escape_byte(a[0]) + (escape_bytes(a.subrange(1, a.len() as int)) + escape_bytes(b))
            =~= (escape_byte(a[0]) + escape_bytes(a.subrange(1, a.len() as int))) + escape_bytes(b));
    }
}

/// Escaped text is ASCII and holds no `/`.
pub proof fn lemma_escape_bytes_ascii(bs: Seq<u8>)
    ensures
        vstd::utf8::is_ascii_chars(escape_bytes(bs)),
        forall|i: int| 0 <= i < escape_bytes(bs).len() ==> #[trigger] escape_bytes(bs)[i] != '/',
    decreases bs.len(),
{
    if bs.len() > 0 {
        lemma_escape_bytes_ascii(bs.subrange(1, bs.len() as int));
        let e = escape_byte(bs[0]);
        let r = escape_bytes(bs.subrange(1, bs.len() as int));
        assert(escape_bytes(bs) == e + r);
        assert forall|i: int| 0 <= i < (e + r).len() implies '\0' <= #[trigger] (e + r)[i] <= '\u{7f}' && (e + r)[i] != '/' by {
            if i >= e.len() {
                assert((e + r)[i] == r[i - e.len()]);
            }
        }
    }
}

/// The bytes of ASCII text: each character's code.
pub open spec fn ascii_bytes(cs: Seq<char>) -> Seq<u8> {
    Seq::new(cs.len(), |i: int| cs[i] as u8)
}

/// Unescaping escaped bytes gives the bytes back.
pub proof fn lemma_unescape_escape(bs: Seq<u8>)
    ensures
        unescape_bytes(ascii_bytes(escape_bytes(bs))) == bs,
    decreases bs.len(),
{
    if bs.len() == 0 {
        assert(ascii_bytes(escape_bytes(bs)) =~= Seq::<u8>::empty());
        assert(bs =~= Seq::<u8>::empty());
    } else {
        let rest = bs.subrange(1, bs.len() as int);
        lemma_unescape_escape(rest);
        let e = escape_byte(bs[0]);
        let er = escape_bytes(rest);
        let all = ascii_bytes(e + er);
        assert(escape_bytes(bs) == e + er);
        let b = bs[0];
        if is_plain_byte(b) {
            assert(all[0] == b);
            assert(all.subrange(1, all.len() as int) =~= ascii_bytes(er));
        } else {
            let hi = (b / 16) as nat;
            let lo = (b % 16) as nat;
            assert(all[0] == 37);
            assert(all[1] == hex_char(hi) as u8);
            assert(all[2] == hex_char(lo) as u8);
            assert(hex_value(hex_char(hi) as u8) == Some(hi));
            assert(hex_value(hex_char(lo) as u8) == Some(lo));
            assert((hi * 16 + lo) as u8 == b);
            assert(all.subrange(3, all.len() as int) =~= ascii_bytes(er));
        }
        assert(seq![b] + rest =~= bs);
    }
}

/// Appends the escaped form of a byte.
fn push_escaped_byte(s: &mut String, b: u8)
    ensures
        final(s)@ == old(s)@ + escape_byte(b),
{
    if (48 <= b && b <= 57) || (65 <= b && b <= 90) || (97 <= b && b <= 122) || b == 95 {
        push_char(s, b as char);
    } else {
        let hi: u8 = b / 16;
        let lo: u8 = b % 16;
        let ch: char = if hi < 10 { (48u8 + hi) as char } else { (97u8 + hi - 10) as char };
        let cl: char = if lo < 10 { (48u8 + lo) as char } else { (97u8 + lo - 10) as char };
        assert(ch == hex_char(hi as nat));
        assert(cl == hex_char(lo as nat));
        push_char(s, '%');
        push_char(s, ch);
        push_char(s, cl);
    }
    assert(s@ =~= old(s)@ + escape_byte(b));
}

/// The escaped form of a name: each byte of its UTF-8 encoding that is not an
/// ASCII letter, digit or `_` becomes `%` and two lowercase hexadecimal digits.
pub fn escape(key: &str) -> (r: String)
    ensures
        r@ == escape_bytes(encode_utf8(key@)),
{
    let bytes = key.as_bytes();
    let ghost bs = encode_utf8(key@);
    assert(bytes@ == bs);
    let mut s = String::new();
    let mut i: usize = 0;
    assert(bs.subrange(0, 0) =~= Seq::<u8>::empty());
    assert(s@ =~= escape_bytes(bs.subrange(0, 0)));
    while i < bytes.len()
        invariant
            bytes@ == bs,
            i <= bs.len(),
            s@ == escape_bytes(bs.subrange(0, i as int)),
        decreases bytes.len() - i,
    {
        let b = bytes[i];
        push_escaped_byte(&mut s, b);
        proof {
            lemma_escape_bytes_concat(bs.subrange(0, i as int), seq![b]);
            assert(bs.subrange(0, i as int) + seq![b] =~= bs.subrange(0, i + 1));
            assert(escape_bytes(seq![b]) =~= escape_byte(b)) by {
                assert(seq![b].subrange(1, 1) =~= Seq::<u8>::empty());
                assert(escape_bytes(seq![b].subrange(1, 1)) =~= Seq::<char>::empty());
            }
        }
        i = i + 1;
    }
    assert(bs.subrange(0, bs.len() as int) =~= bs);
    s
}

/// The string whose UTF-8 encoding is the given bytes (`String::from_utf8`);
/// none if they are not UTF-8.
#[verifier::external_body]
fn string_from_utf8(bytes: Vec<u8>) -> (r: Option<String>)
    ensures
        r is Some <==> valid_utf8(bytes@),
        r matches Some(s) ==> encode_utf8(s@) == bytes@,
{
    String::from_utf8(bytes).ok()
}

/// The value of a byte that is a lowercase hexadecimal digit.
fn hex_digit_value(b: u8) -> (r: Option<u8>)
    ensures
        match hex_value(b) {
            Some(v) => r == Some(v as u8),
            None => r is None,
        },
{
    if 48 <= b && b <= 57 {
        Some(b - 48)
    } else if 97 <= b && b <= 102 {
        Some(b - 97 + 10)
    } else {
        None
    }
}

/// The name that an escaped segment stands for: `%` and two lowercase
/// hexadecimal digits stand for a byte, any other byte for itself; an error
/// if the bytes so found are not UTF-8.
pub fn unescape(key: &str) -> (r: Result<String, KVApiKeyError>)
    ensures
        match r {
            Ok(s) => encode_utf8(s@) == unescape_bytes(encode_utf8(key@)),
            Err(e) => e is FromUtf8Error && !valid_utf8(unescape_bytes(encode_utf8(key@))),
        },
{
    let bytes = key.as_bytes();
    let ghost bs = encode_utf8(key@);
    let n = bytes.len();
    let mut out: Vec<u8> = Vec::new();
    let mut i: usize = 0;
    assert(bs.subrange(0, n as int) =~= bs);
    while i < n
        invariant
            bytes@ == bs,
            n == bs.len(),
            i <= n,
            unescape_bytes(bs) == out@ + unescape_bytes(bs.subrange(i as int, n as int)),
        decreases n - i,
    {
        let ghost rest = bs.subrange(i as int, n as int);
        let b = bytes[i];
        if b == 37 && n - i >= 3 {
            let h1 = hex_digit_value(bytes[i + 1]);
            let h2 = hex_digit_value(bytes[i + 2]);
            if h1.is_some() && h2.is_some() {
                let v1 = h1.unwrap();
                let v2 = h2.unwrap();
                let v: u8 = v1 * 16 + v2;
                proof {
                    assert(rest[0] == b && rest[1] == bytes@[i + 1] && rest[2] == bytes@[i + 2]);
                    assert(rest.subrange(3, rest.len() as int) =~= bs.subrange(i + 3, n as int));
                }
                let ghost before = out@;
                out.push(v);
                proof {
                    assert(unescape_bytes(rest) == seq![v] + unescape_bytes(bs.subrange(i + 3, n as int)));
                    assert(out@ + unescape_bytes(bs.subrange(i + 3, n as int))
                        =~= before + (seq![v] + unescape_bytes(bs.subrange(i + 3, n as int))));
                }
                i = i + 3;
                continue;
            }
        }
        proof {
            assert(rest[0] == b);
            assert(rest.subrange(1, rest.len() as int) =~= bs.subrange(i + 1, n as int));
        }
        let ghost before = out@;
        out.push(b);
        assert(out@ + unescape_bytes(bs.subrange(i + 1, n as int)) =~= before + (seq![b] + unescape_bytes(bs.subrange(i + 1, n as int))));
        i = i + 1;
    }
    assert(bs.subrange(n as int, n as int) =~= Seq::<u8>::empty());
    assert(out@ + Seq::<u8>::empty() =~= out@);
    match string_from_utf8(out) {
        Some(s) => Ok(s),
        None => Err(KVApiKeyError::FromUtf8Error),
    }
}


/// Why text is not an unsigned 64 bit integer: it is empty, holds a
/// character that is not a decimal digit, or is too large.
#[derive(PartialEq, Eq, Structural, Clone, Copy, Debug)]
pub enum ParseIdError {
    Empty,
    InvalidDigit,
    PosOverflow,
}

/// How a parse error is printed.
pub open spec fn parse_id_error_text(e: ParseIdError) -> Seq<char> {
    match e {
        ParseIdError::Empty => "cannot parse integer from empty string"@,
        ParseIdError::InvalidDigit => "invalid digit found in string"@,
        ParseIdError::PosOverflow => "number too large to fit in target type"@,
    }
}

/// Whether a character is a decimal digit.
pub open spec fn is_digit(c: char) -> bool {
    '0' <= c && c <= '9'
}

/// Reads decimal digits left to right onto `acc`: the first character that is
/// not a digit, or the first digit that takes the value past `u64::MAX`, is
/// the error.
pub open spec fn parse_digits(acc: nat, ds: Seq<char>) -> Result<nat, ParseIdError>
    decreases ds.len(),
{
    if ds.len() == 0 {
        Ok(acc)
    } else if !is_digit(ds[0]) {
        Err(ParseIdError::InvalidDigit)
    } else {
        let v = acc * 10 + ((ds[0] as int) - 48) as nat;
        if v > u64::MAX {
            Err(ParseIdError::PosOverflow)
        } else {
            parse_digits(v, ds.subrange(1, ds.len() as int))
        }
    }
}

/// An unsigned 64 bit integer in decimal, as Rust's `u64::from_str` reads
/// it: optionally after one `+`, one or more decimal digits.
pub open spec fn parse_u64(s: Seq<char>) -> Result<nat, ParseIdError> {
    if s.len() == 0 {
        Err(ParseIdError::Empty)
    } else {
        let ds = if s[0] == '+' { s.subrange(1, s.len() as int) } else { s };
        if ds.len() == 0 {
            Err(ParseIdError::InvalidDigit)
        } else {
            parse_digits(0, ds)
        }
    }
}

/// The id that a segment holds, or the error that names the segment and why.
pub open spec fn decode_id_spec(s: Seq<char>) -> Result<nat, KeyErrorView> {
    match parse_u64(s) {
        Ok(v) => Ok(v),
        Err(e) => Err(KeyErrorView::InvalidId(s, parse_id_error_text(e))),
    }
}

fn parse_id_error_string(e: ParseIdError) -> (r: String)
    ensures
        r@ == parse_id_error_text(e),
{
    match e {
        ParseIdError::Empty => String::from_str("cannot parse integer from empty string"),
        ParseIdError::InvalidDigit => String::from_str("invalid digit found in string"),
        ParseIdError::PosOverflow => String::from_str("number too large to fit in target type"),
    }
}

/// Reads an unsigned 64 bit integer in decimal (see `parse_u64`).
pub fn parse_u64_str(s: &str) -> (r: Result<u64, ParseIdError>)
    ensures
        match r {
            Ok(v) => parse_u64(s@) == Ok::<nat, ParseIdError>(v as nat),
            Err(e) => parse_u64(s@) == Err::<nat, ParseIdError>(e),
        },
{
    let n = s.unicode_len();
    if n == 0 {
        return Err(ParseIdError::Empty);
    }
    let mut i: usize = 0;
    if s.get_char(0) == '+' {
        i = 1;
    }
    if i == n {
        return Err(ParseIdError::InvalidDigit);
    }
    let ghost ds = if s@[0] == '+' { s@.subrange(1, n as int) } else { s@ };
    assert(ds =~= s@.subrange(i as int, n as int));
    let mut acc: u64 = 0;
    while i < n
        invariant
            n == s@.len(),
            i <= n,
            parse_u64(s@) == parse_digits(acc as nat, s@.subrange(i as int, n as int)),
        decreases n - i,
    {
        let c = s.get_char(i);
        let ghost rest = s@.subrange(i as int, n as int);
        assert(rest[0] == c);
        assert(rest.subrange(1, rest.len() as int) =~= s@.subrange(i + 1, n as int));
        if !('0' <= c && c <= '9') {
            return Err(ParseIdError::InvalidDigit);
        }
        let d: u64 = (c as u32 - 48) as u64;
        assert(d as int == (c as int) - 48);
        if acc > (u64::MAX - d) / 10 {
            assert(acc * 10 + d > u64::MAX) by (nonlinear_arith)
                requires acc > (u64::MAX - d) / 10, d <= 9;
            return Err(ParseIdError::PosOverflow);
        }
        assert(acc * 10 + d <= u64::MAX) by (nonlinear_arith)
            requires acc <= (u64::MAX - d) / 10, d <= 9;
        acc = acc * 10 + d;
        i = i + 1;
    }
    assert(s@.subrange(n as int, n as int) =~= Seq::<char>::empty());
    Ok(acc)
}

/// The id that a key segment holds; an `InvalidId` error that names the
/// segment and says why it is not one.
pub fn decode_id(s: &str) -> (r: Result<u64, KVApiKeyError>)
    ensures
        match r {
            Ok(v) => decode_id_spec(s@) == Ok::<nat, KeyErrorView>(v as nat),
            Err(e) => decode_id_spec(s@) == Err::<nat, KeyErrorView>(e@),
        },
{
    match parse_u64_str(s) {
        Ok(v) => Ok(v),
        Err(e) => Err(KVApiKeyError::InvalidId { s: String::from_str(s), reason: parse_id_error_string(e) }),
    }
}

/// The segments of text split at every `c`; text without `c` is one segment.
pub open spec fn split_on(s: Seq<char>, c: char) -> Seq<Seq<char>>
    decreases s.len(),
{
    if s.len() == 0 {
        seq![Seq::empty()]
    } else {
        let rest = split_on(s.subrange(1, s.len() as int), c);
        if s[0] == c {
            seq![Seq::<char>::empty()] + rest
        } else {
            rest.update(0, seq![s[0]] + rest[0])
        }
    }
}

/// Splitting gives at least one segment.
pub proof fn lemma_split_on_len(s: Seq<char>, c: char)
    ensures
        split_on(s, c).len() >= 1,
    decreases s.len(),
{
    if s.len() > 0 {
        lemma_split_on_len(s.subrange(1, s.len() as int), c);
    }
}

/// Text without `c` is one segment; text without `c` followed by `c` is that
/// segment followed by the segments of the rest.
pub proof fn lemma_split_on_segment(a: Seq<char>, rest: Seq<char>, c: char)
    requires
        forall|i: int| 0 <= i < a.len() ==> #[trigger] a[i] != c,
    ensures
        split_on(a, c) == seq![a],
        split_on(a + seq![c] + rest, c) == seq![a] + split_on(rest, c),
    decreases a.len(),
{
    if a.len() == 0 {
        assert(a =~= Seq::<char>::empty());
        let s = a + seq![c] + rest;
        assert(s.subrange(1, s.len() as int) =~= rest);
    } else {
        let a1 = a.subrange(1, a.len() as int);
        lemma_split_on_segment(a1, rest, c);
        lemma_split_on_len(rest, c);
        let s = a + seq![c] + rest;
        assert(s.subrange(1, s.len() as int) =~= a1 + seq![c] + rest);
        assert(seq![a[0]] + a1 =~= a);
        assert(split_on(a, c) =~= seq![a]);
        assert(split_on(s, c) =~= seq![a] + split_on(rest, c));
    }
}

/// The characters of each vector, in order.
pub open spec fn vecs_view(v: Seq<Vec<char>>) -> Seq<Seq<char>> {
    Seq::new(v.len(), |i: int| v[i]@)
}

/// The segments of a key split at every `/`.
pub fn split_key(s: &str) -> (r: Vec<String>)
    ensures
        names_view(r@) == split_on(s@, '/'),
{
    let n = s.unicode_len();
    let mut segs: Vec<Vec<char>> = Vec::new();
    segs.push(Vec::new());
    let mut i: usize = n;
    assert(s@.subrange(n as int, n as int) =~= Seq::<char>::empty());
    assert(vecs_view(segs@) =~= split_on(s@.subrange(n as int, n as int), '/'));
    while i > 0
        invariant
            n == s@.len(),
            i <= n,
            vecs_view(segs@) == split_on(s@.subrange(i as int, n as int), '/'),
        decreases i,
    {
        i = i - 1;
        let c = s.get_char(i);
        let ghost sub = s@.subrange(i as int, n as int);
        proof {
            assert(sub[0] == c);
            assert(sub.subrange(1, sub.len() as int) =~= s@.subrange(i + 1, n as int));
            lemma_split_on_len(s@.subrange(i + 1, n as int), '/');
        }
        let ghost before = vecs_view(segs@);
        if c == '/' {
            segs.insert(0, Vec::new());
            assert(vecs_view(segs@) =~= seq![Seq::<char>::empty()] + before);
        } else {
            let ghost old_segs = segs@;
            assert(before.len() >= 1);
            let mut first = segs.remove(0);
            assert(first@ == before[0]);
            let ghost rem = segs@;
            first.insert(0, c);
            assert(first@ =~= seq![c] + before[0]);
            segs.insert(0, first);
            assert forall|k: int| 0 <= k < segs@.len() implies #[trigger] vecs_view(segs@)[k] == before.update(0, seq![c] + before[0])[k] by {
                if k > 0 {
                    assert(segs@[k] == rem[k - 1]);
                    assert(rem[k - 1] == old_segs[k]);
                }
            }
            assert(vecs_view(segs@) =~= before.update(0, seq![c] + before[0]));
        }
    }
    assert(s@.subrange(0, n as int) =~= s@);
    let mut r: Vec<String> = Vec::new();
    let mut j: usize = 0;
    while j < segs.len()
        invariant
            j <= segs.len(),
            r@.len() == j,
            forall|k: int| 0 <= k < j ==> (#[trigger] r@[k])@ == segs@[k]@,
        decreases segs.len() - j,
    {
        let mut t = String::new();
        push_chars(&mut t, &segs[j]);
        r.push(t);
        j = j + 1;
    }
    assert(names_view(r@) =~= vecs_view(segs@));
    r
}

/// The name that an escaped segment stands for; none if its bytes are not UTF-8.
pub open spec fn unescape_spec(seg: Seq<char>) -> Option<Seq<char>> {
    let bs = unescape_bytes(encode_utf8(seg));
    if valid_utf8(bs) {
        Some(vstd::utf8::decode_utf8(bs))
    } else {
        None
    }
}

/// Unescaping an escaped name gives the name back.
pub proof fn lemma_unescape_spec_escape(name: Seq<char>)
    ensures
        unescape_spec(escape_bytes(encode_utf8(name))) == Some(name),
{
    let e = escape_bytes(encode_utf8(name));
    lemma_escape_bytes_ascii(encode_utf8(name));
    vstd::utf8::is_ascii_chars_encode_utf8(e);
    assert(encode_utf8(e) =~= ascii_bytes(e));
    lemma_unescape_escape(encode_utf8(name));
}

/// Unescapes a segment (see `unescape_spec`).
pub fn unescape_name(seg: &str) -> (r: Result<String, KVApiKeyError>)
    ensures
        match unescape_spec(seg@) {
            Some(name) => r matches Ok(s) && s@ == name,
            None => r matches Err(e) && e@ == KeyErrorView::FromUtf8Error,
        },
{
    let r = unescape(seg);
    match &r {
        Ok(s) => {
            proof {
                vstd::utf8::encode_utf8_decode_utf8(s@);
            }
        },
        Err(_) => {},
    }
    r
}


/// The escaped form of a name: the escaped bytes of its UTF-8 encoding.
pub open spec fn escaped(name: Seq<char>) -> Seq<char> {
    escape_bytes(encode_utf8(name))
}

/// Escaped names hold no `/`.
pub proof fn lemma_escaped_no_slash(name: Seq<char>)
    ensures
        forall|i: int| 0 <= i < escaped(name).len() ==> #[trigger] escaped(name)[i] != '/',
{
    lemma_escape_bytes_ascii(encode_utf8(name));
}

/// Reading digits distributes over concatenation.
pub proof fn lemma_parse_digits_concat(acc: nat, a: Seq<char>, b: Seq<char>)
    ensures
        parse_digits(acc, a + b) == match parse_digits(acc, a) {
            Ok(v) => parse_digits(v, b),
            Err(e) => Err(e),
        },
    decreases a.len(),
{
    if a.len() == 0 {
        assert(a + b =~= b);
    } else {
        let v = acc * 10 + ((a[0] as int) - 48) as nat;
        assert((a + b).subrange(1, (a + b).len() as int) =~= a.subrange(1, a.len() as int) + b);
        lemma_parse_digits_concat(v, a.subrange(1, a.len() as int), b);
    }
}

/// The decimal rendering of a number is made of digits.
pub proof fn lemma_decimal_digits(n: nat)
    ensures
        decimal(n).len() >= 1,
        forall|i: int| 0 <= i < decimal(n).len() ==> is_digit(#[trigger] decimal(n)[i]),
    decreases n,
{
    if n >= 10 {
        lemma_decimal_digits(n / 10);
    }
}

/// The decimal rendering of an unsigned 64 bit integer reads back as it.
pub proof fn lemma_parse_decimal(n: nat)
    requires
        n <= u64::MAX,
    ensures
        parse_u64(decimal(n)) == Ok::<nat, ParseIdError>(n),
        parse_digits(0, decimal(n)) == Ok::<nat, ParseIdError>(n),
    decreases n,
{
    lemma_decimal_digits(n);
    assert((digit_char(n % 10) as int) == 48 + n % 10);
    if n < 10 {
        let d = decimal(n);
        assert(d == seq![digit_char(n)]);
        assert(parse_digits(0, d) == parse_digits(n, d.subrange(1, 1)));
        assert(d.subrange(1, 1) =~= Seq::<char>::empty());
    } else {
        lemma_parse_decimal(n / 10);
        let c = digit_char(n % 10);
        lemma_parse_digits_concat(0, decimal(n / 10), seq![c]);
        assert(decimal(n) == decimal(n / 10) + seq![c]);
        assert(seq![c].subrange(1, 1) =~= Seq::<char>::empty());
        assert(parse_digits(n / 10, seq![c]) == parse_digits((n / 10) * 10 + n % 10, seq![c].subrange(1, 1)));
    }
    assert(decimal(n)[0] != '+');
}

/// Decimal renderings hold no `/`.
pub proof fn lemma_decimal_no_slash(n: nat)
    ensures
        forall|i: int| 0 <= i < decimal(n).len() ==> #[trigger] decimal(n)[i] != '/',
{
    lemma_decimal_digits(n);
}

} // verus!
