//! Plain string helpers: splitting on blank lines, and decimal numerals.

use crate::grammar::chars_of;
use vstd::prelude::*;
use vstd::string::StringExecFns;

verus! {

/// Relies on `core::iter::Iterator::collect` for `String`: collecting
/// characters yields the string holding exactly those characters in order.
#[verifier::external_body]
pub(crate) fn chars_to_string(v: &Vec<char>) -> (r: String)
    ensures
        r@ == v@,
{
    v.iter().collect()
}

/// The characters `v[lo..hi)`.
pub fn sub_chars(v: &Vec<char>, lo: usize, hi: usize) -> (r: Vec<char>)
    requires
        lo <= hi <= v.len(),
    ensures
        r@ == v@.subrange(lo as int, hi as int),
{
    let mut r: Vec<char> = Vec::new();
    let mut i: usize = lo;
    while i < hi
        invariant
            lo <= i <= hi <= v.len(),
            r@.len() == i - lo,
            forall|k: int| 0 <= k < i - lo ==> r@[k] == v@[lo + k],
        decreases hi - i,
    {
        r.push(v[i]);
        i = i + 1;
    }
    assert(r@ =~= v@.subrange(lo as int, hi as int));
    r
}

/// Split `s` on non-overlapping occurrences of `sep`, scanning from `cur`,
/// with the running chunk starting at `start`.
pub open spec fn split_from(s: Seq<char>, sep: Seq<char>, start: int, cur: int) -> Seq<Seq<char>>
    decreases s.len() - cur,
    when 0 <= start && start <= cur && sep.len() >= 1
{
    if cur + sep.len() > s.len() {
        seq![s.subrange(start, s.len() as int)]
    } else if s.subrange(cur, cur + sep.len()) == sep {
        seq![s.subrange(start, cur)] + split_from(s, sep, cur + sep.len(), cur + sep.len())
    } else {
        split_from(s, sep, start, cur + 1)
    }
}

/// Whether a carriage-return-and-newline pair occurs anywhere.
pub open spec fn contains_crlf(s: Seq<char>) -> bool {
    exists|i: int| 0 <= i && i + 2 <= s.len() && #[trigger] s[i] == '\r' && s[i + 1] == '\n'
}

/// Chunks of `s` between blank lines: the line separator is taken to be
/// `\r\n` when one occurs anywhere in `s`, else `\n`.
pub open spec fn spec_split_by_empty_line(s: Seq<char>) -> Seq<Seq<char>> {
    if contains_crlf(s) {
        split_from(s, seq!['\r', '\n', '\r', '\n'], 0, 0)
    } else {
        split_from(s, seq!['\n', '\n'], 0, 0)
    }
}

fn find_crlf(v: &Vec<char>) -> (r: bool)
    ensures
        r == contains_crlf(v@),
{
    let mut i: usize = 0;
    while i < v.len() && i + 1 < v.len()
        invariant
            i <= v.len(),
            forall|k: int| 0 <= k < i && k + 2 <= v@.len() ==> !(#[trigger] v@[k] == '\r' && v@[k
                + 1] == '\n'),
        decreases v.len() - i,
    {
        if v[i] == '\r' && v[i + 1] == '\n' {
            assert(v@[i as int] == '\r' && v@[i as int + 1] == '\n');
            return true;
        }
        i = i + 1;
    }
    false
}

/// Whether `sep` occurs at position `cur` of `v`.
fn sep_at(v: &Vec<char>, sep: &Vec<char>, cur: usize) -> (r: bool)
    requires
        cur + sep.len() <= v.len(),
    ensures
        r == (v@.subrange(cur as int, cur as int + sep@.len() as int) == sep@),
{
    let mut i: usize = 0;
    while i < sep.len()
        invariant
            i <= sep.len(),
            cur + sep.len() <= v.len(),
            forall|k: int| 0 <= k < i ==> v@[cur + k] == sep@[k],
        decreases sep.len() - i,
    {
        if v[cur + i] != sep[i] {
            assert(v@.subrange(cur as int, cur as int + sep@.len() as int) != sep@) by {
                assert(v@.subrange(cur as int, cur as int + sep@.len() as int)[i as int] != sep@[
                    i as int]);
            }
            return false;
        }
        i = i + 1;
    }
    assert(v@.subrange(cur as int, cur as int + sep@.len() as int) =~= sep@);
    true
}

/// Split the text into the chunks that blank lines separate.
pub fn split_string_by_empty_line(s: &str) -> (r: Vec<String>)
    ensures
        r.deep_view() == spec_split_by_empty_line(s@),
{
    let v = chars_of(s);
    let mut sep: Vec<char> = Vec::new();
    if find_crlf(&v) {
        sep.push('\r');
        sep.push('\n');
        sep.push('\r');
        sep.push('\n');
        assert(sep@ =~= seq!['\r', '\n', '\r', '\n']);
    } else {
        sep.push('\n');
        sep.push('\n');
        assert(sep@ =~= seq!['\n', '\n']);
    }
    let ghost target = split_from(v@, sep@, 0, 0);
    let mut r: Vec<String> = Vec::new();
    let mut start: usize = 0;
    let mut cur: usize = 0;
    while cur < v.len() && sep.len() <= v.len() - cur
        invariant
            start <= cur <= v.len(),
            sep@.len() >= 1,
            target == split_from(v@, sep@, 0, 0),
            r.deep_view() + split_from(v@, sep@, start as int, cur as int) =~= target,
        decreases v.len() - cur,
    {
        if sep_at(&v, &sep, cur) {
            let chunk = sub_chars(&v, start, cur);
            let cs = chars_to_string(&chunk);
            proof {
                assert(split_from(v@, sep@, start as int, cur as int) == seq![
                    v@.subrange(start as int, cur as int),
                ] + split_from(v@, sep@, cur + sep@.len(), cur + sep@.len()));
            }
            r.push(cs);
            proof {
                assert(r.deep_view() =~= r.deep_view().drop_last().push(v@.subrange(
                    start as int,
                    cur as int,
                )));
                assert(r.deep_view() + split_from(v@, sep@, cur + sep@.len(), cur + sep@.len())
                    =~= target);
            }
            cur = cur + sep.len();
            start = cur;
        } else {
            proof {
                assert(split_from(v@, sep@, start as int, cur as int) == split_from(
                    v@,
                    sep@,
                    start as int,
                    cur as int + 1,
                ));
            }
            cur = cur + 1;
        }
    }
    let chunk = sub_chars(&v, start, v.len());
    let cs = chars_to_string(&chunk);
    proof {
        assert(split_from(v@, sep@, start as int, cur as int) == seq![
            v@.subrange(start as int, v@.len() as int),
        ]);
    }
    r.push(cs);
    proof {
        assert(r.deep_view() =~= r.deep_view().drop_last().push(v@.subrange(
            start as int,
            v@.len() as int,
        )));
        assert(r.deep_view() =~= target);
    }
    r
}

/// The decimal digit characters.
pub open spec fn dec_digit(d: int) -> char {
    if d == 0 {
        '0'
    } else if d == 1 {
        '1'
    } else if d == 2 {
        '2'
    } else if d == 3 {
        '3'
    } else if d == 4 {
        '4'
    } else if d == 5 {
        '5'
    } else if d == 6 {
        '6'
    } else if d == 7 {
        '7'
    } else if d == 8 {
        '8'
    } else {
        '9'
    }
}

/// The decimal numeral of a natural number, most significant digit first.
pub open spec fn dec_of(n: nat) -> Seq<char>
    decreases n,
{
    if n < 10 {
        seq![dec_digit(n as int)]
    } else {
        dec_of(n / 10).push(dec_digit((n % 10) as int))
    }
}

/// The decimal numeral of an integer, with a leading minus sign when negative.
pub open spec fn dec_of_int(n: int) -> Seq<char> {
    if n < 0 {
        seq!['-'] + dec_of((-n) as nat)
    } else {
        dec_of(n as nat)
    }
}

fn digit_char(d: u64) -> (r: char)
    requires
        d < 10,
    ensures
        r == dec_digit(d as int),
{
    if d == 0 {
        '0'
    } else if d == 1 {
        '1'
    } else if d == 2 {
        '2'
    } else if d == 3 {
        '3'
    } else if d == 4 {
        '4'
    } else if d == 5 {
        '5'
    } else if d == 6 {
        '6'
    } else if d == 7 {
        '7'
    } else if d == 8 {
        '8'
    } else {
        '9'
    }
}

/// Render an unsigned number as its decimal numeral.
pub fn u64_to_string(n: u64) -> (r: String)
    ensures
        r@ == dec_of(n as nat),
{
    let mut digits: Vec<char> = Vec::new();
    let mut m: u64 = n;
    assert(dec_of(n as nat) =~= dec_of(n as nat) + digits@);
    while m >= 10
        invariant
            dec_of(n as nat) == dec_of(m as nat) + digits@,
        decreases m,
    {
        let d = digit_char(m % 10);
        let ghost dold = digits@;
        digits.insert(0, d);
        proof {
            assert(dec_of(m as nat) == dec_of((m as nat) / 10).push(dec_digit((m % 10) as int)));
            assert(dec_of((m as nat) / 10) + digits@ =~= dec_of(m as nat) + dold);
        }
        m = m / 10;
    }
    let d = digit_char(m);
    let ghost dold = digits@;
    digits.insert(0, d);
    proof {
        assert(dec_of(m as nat) == seq![dec_digit(m as int)]);
        assert(digits@ =~= seq![dec_digit(m as int)] + dold);
        assert(dec_of(n as nat) =~= digits@);
    }
    chars_to_string(&digits)
}

/// Render a signed number as its decimal numeral.
pub fn i64_to_string(n: i64) -> (r: String)
    ensures
        r@ == dec_of_int(n as int),
{
    if n >= 0 {
        u64_to_string(n as u64)
    } else {
        let mag: u64 = if n == i64::MIN {
            9223372036854775808u64
        } else {
            (-n) as u64
        };
        proof {
            reveal_strlit("-");
        }
        let mut r = "-".to_owned();
        let numeral = u64_to_string(mag);
        r.append(numeral.as_str());
        assert(r@ =~= dec_of_int(n as int));
        r
    }
}

/// Render a 32-bit signed number as its decimal numeral.
pub fn i32_to_string(n: i32) -> (r: String)
    ensures
        r@ == dec_of_int(n as int),
{
    i64_to_string(n as i64)
}

pub open spec fn is_digit_char(c: char) -> bool {
    c == '0' || c == '1' || c == '2' || c == '3' || c == '4' || c == '5' || c == '6' || c == '7'
        || c == '8' || c == '9'
}

pub open spec fn digit_val(c: char) -> int {
    if c == '0' {
        0
    } else if c == '1' {
        1
    } else if c == '2' {
        2
    } else if c == '3' {
        3
    } else if c == '4' {
        4
    } else if c == '5' {
        5
    } else if c == '6' {
        6
    } else if c == '7' {
        7
    } else if c == '8' {
        8
    } else {
        9
    }
}

/// Whether the sequence is one or more decimal digits.
pub open spec fn all_digits(s: Seq<char>) -> bool {
    s.len() > 0 && forall|i: int| 0 <= i < s.len() ==> is_digit_char(#[trigger] s[i])
}

/// The value of a digit sequence read in base ten.
pub open spec fn digits_val(s: Seq<char>) -> int
    decreases s.len(),
{
    if s.len() == 0 {
        0
    } else {
        digits_val(s.drop_last()) * 10 + digit_val(s.last())
    }
}

proof fn lemma_digits_val_nonneg(s: Seq<char>)
    requires
        forall|i: int| 0 <= i < s.len() ==> is_digit_char(#[trigger] s[i]),
    ensures
        digits_val(s) >= 0,
    decreases s.len(),
{
    if s.len() > 0 {
        lemma_digits_val_nonneg(s.drop_last());
    }
}

proof fn lemma_digits_val_grows(s: Seq<char>, k: int)
    requires
        forall|i: int| 0 <= i < s.len() ==> is_digit_char(#[trigger] s[i]),
        0 <= k <= s.len(),
    ensures
        digits_val(s) >= digits_val(s.take(k)),
    decreases s.len() - k,
{
    if k < s.len() {
        lemma_digits_val_nonneg(s.take(k));
        assert(s.take(k + 1).drop_last() =~= s.take(k));
        assert(digits_val(s.take(k + 1)) == digits_val(s.take(k)) * 10 + digit_val(s[k]));
        lemma_digits_val_grows(s, k + 1);
    } else {
        assert(s.take(k) =~= s);
    }
}

fn exec_digit_val(c: char) -> (r: Option<u64>)
    ensures
        match r {
            Some(d) => is_digit_char(c) && d as int == digit_val(c) && d < 10,
            None => !is_digit_char(c),
        },
{
    if c == '0' {
        Some(0)
    } else if c == '1' {
        Some(1)
    } else if c == '2' {
        Some(2)
    } else if c == '3' {
        Some(3)
    } else if c == '4' {
        Some(4)
    } else if c == '5' {
        Some(5)
    } else if c == '6' {
        Some(6)
    } else if c == '7' {
        Some(7)
    } else if c == '8' {
        Some(8)
    } else if c == '9' {
        Some(9)
    } else {
        None
    }
}

/// The value of the digit characters `s[lo..]`, when they are one or more
/// digits whose value does not pass `cap`.
pub open spec fn spec_parse_digits(s: Seq<char>, lo: int, cap: int) -> Option<int> {
    if all_digits(s.skip(lo)) && digits_val(s.skip(lo)) <= cap {
        Some(digits_val(s.skip(lo)))
    } else {
        None
    }
}

/// Parse the digit characters `v[lo..]` as a base-ten value up to `cap`.
fn parse_digits_from(v: &Vec<char>, lo: usize, cap: u64) -> (r: Option<u64>)
    requires
        lo <= v.len(),
        cap <= 0x0fff_ffff_ffff_ffff,
    ensures
        match r {
            Some(x) => {
                &&& spec_parse_digits(v@, lo as int, cap as int) == Some(x as int)
                &&& x <= cap
            },
            None => spec_parse_digits(v@, lo as int, cap as int) is None,
        },
{
    let ghost ds = v@.skip(lo as int);
    if lo == v.len() {
        return None;
    }
    let mut acc: u64 = 0;
    let mut i: usize = lo;
    while i < v.len()
        invariant
            lo <= i <= v.len(),
            ds == v@.skip(lo as int),
            acc <= cap,
            cap <= 0x0fff_ffff_ffff_ffff,
            forall|k: int| 0 <= k < i - lo ==> is_digit_char(#[trigger] ds[k]),
            acc as int == digits_val(ds.take(i - lo)),
        decreases v.len() - i,
    {
        match exec_digit_val(v[i]) {
            Some(d) => {
                proof {
                    assert(ds[i - lo] == v@[i as int]);
                    assert(ds.take(i - lo + 1).drop_last() =~= ds.take(i - lo));
                    assert(digits_val(ds.take(i - lo + 1)) == digits_val(ds.take(i - lo)) * 10
                        + digit_val(ds[i - lo]));
                }
                let next = acc * 10 + d;
                if next > cap {
                    proof {
                        if all_digits(ds) {
                            lemma_digits_val_grows(ds, i - lo + 1);
                        }
                    }
                    return None;
                }
                acc = next;
            },
            None => {
                proof {
                    assert(ds[i - lo] == v@[i as int]);
                    assert(!all_digits(ds));
                }
                return None;
            },
        }
        i = i + 1;
    }
    proof {
        assert(ds.take(v@.len() - lo) =~= ds);
        assert(all_digits(ds));
    }
    Some(acc)
}

/// The 32-bit signed value that the text denotes in base ten, with an
/// optional leading sign, if it denotes one.
pub open spec fn spec_parse_i32(s: Seq<char>) -> Option<i32> {
    let signed = s.len() > 0 && (s[0] == '-' || s[0] == '+');
    let neg = s.len() > 0 && s[0] == '-';
    let ds = if signed {
        s.skip(1)
    } else {
        s
    };
    if all_digits(ds) {
        let v = if neg {
            -digits_val(ds)
        } else {
            digits_val(ds)
        };
        if i32::MIN <= v <= i32::MAX {
            Some(v as i32)
        } else {
            None
        }
    } else {
        None
    }
}

/// Parse a base-ten 32-bit signed value with an optional leading sign.
pub fn parse_i32(s: &str) -> (r: Option<i32>)
    ensures
        r == spec_parse_i32(s@),
{
    let v = chars_of(s);
    if v.len() == 0 {
        return None;
    }
    let c0 = v[0];
    let signed = c0 == '-' || c0 == '+';
    let neg = c0 == '-';
    let lo: usize = if signed {
        1
    } else {
        0
    };
    proof {
        if lo == 0 {
            assert(v@.skip(0) =~= v@);
        }
    }
    match parse_digits_from(&v, lo, 0x8000_0000) {
        Some(x) => {
            proof {
                lemma_digits_val_nonneg(v@.skip(lo as int));
            }
            if neg {
                if x == 0x8000_0000 {
                    Some(i32::MIN)
                } else {
                    Some(-((x as i64) as i32))
                }
            } else {
                if x <= 0x7fff_ffff {
                    Some(x as i32)
                } else {
                    None
                }
            }
        },
        None => None,
    }
}

/// The unsigned value that the digit text denotes in base ten, if it denotes
/// one that machine identifiers can hold.
pub open spec fn spec_parse_u64(s: Seq<char>) -> Option<u64> {
    if all_digits(s) && digits_val(s) <= 0x0fff_ffff_ffff_ffff {
        Some(digits_val(s) as u64)
    } else {
        None
    }
}

/// Parse one or more digits as an unsigned base-ten value.
pub fn parse_u64(s: &str) -> (r: Option<u64>)
    ensures
        r == spec_parse_u64(s@),
{
    let v = chars_of(s);
    proof {
        assert(v@.skip(0) =~= v@);
    }
    parse_digits_from(&v, 0, 0x0fff_ffff_ffff_ffff)
}


/// The byte encoding of a character sequence, as std's string type stores
/// it.
pub uninterp spec fn utf8_bytes_of(s: Seq<char>) -> Seq<u8>;

/// Relies on str::as_bytes and slice::to_vec: the stored bytes of the text;
/// they depend on the characters alone.
#[verifier::external_body]
pub(crate) fn string_to_bytes(s: &str) -> (r: Vec<u8>)
    ensures
        r@ == utf8_bytes_of(s@),
{
    s.as_bytes().to_vec()
}

/// Relies on String::from_utf8: the text stored as exactly the given bytes;
/// it fails exactly on byte sequences that are no text's encoding.
#[verifier::external_body]
pub(crate) fn bytes_to_string(b: &[u8]) -> (r: Option<String>)
    ensures
        match r {
            Some(s) => utf8_bytes_of(s@) == b@,
            None => !(exists|s: Seq<char>| #[trigger] utf8_bytes_of(s) == b@),
        },
{
    String::from_utf8(b.to_vec()).ok()
}


} // verus!
