//! The placeholder grammar.
//!
//! Placeholders are written between double braces.  A *marker* is a
//! double-brace pair whose content holds no brace.  The content decides the
//! marker's kind:
//!
//! - simple: non-empty content without whitespace, `{{expression}}`;
//! - helper: a non-empty head that does not start with `#` or `/`, then
//!   whitespace, then brace-free text, `{{helperName expression}}`;
//! - block open: content starting with `#` and at least one more character;
//! - block close: content starting with `/` and at least one more character.

use vstd::prelude::*;

verus! {

/// Whitespace as the grammar understands it.
pub open spec fn is_ws_char(c: char) -> bool {
    c == ' ' || c == '\t' || c == '\n' || c == '\r'
}

pub open spec fn is_brace_char(c: char) -> bool {
    c == '{' || c == '}'
}

/// A double opening brace stands at `i`.
pub open spec fn open_at(s: Seq<char>, i: int) -> bool {
    0 <= i && i + 2 <= s.len() && s[i] == '{' && s[i + 1] == '{'
}

/// A double closing brace stands at `i`.
pub open spec fn close_at(s: Seq<char>, i: int) -> bool {
    0 <= i && i + 2 <= s.len() && s[i] == '}' && s[i + 1] == '}'
}

/// A bare block-open introducer stands at `i`.
pub open spec fn bare_block_open_at(s: Seq<char>, i: int) -> bool {
    0 <= i && i + 3 <= s.len() && s[i] == '{' && s[i + 1] == '{' && s[i + 2] == '#'
}

/// `s[i..j+2)` is a marker: double braces around brace-free content.
pub open spec fn marker_at(s: Seq<char>, i: int, j: int) -> bool {
    &&& open_at(s, i)
    &&& i + 2 <= j
    &&& j + 2 <= s.len()
    &&& s[j] == '}'
    &&& s[j + 1] == '}'
    &&& forall|k: int| i + 2 <= k < j ==> !is_brace_char(#[trigger] s[k])
}

/// A simple placeholder: non-empty content without whitespace.
pub open spec fn simple_marker_at(s: Seq<char>, i: int, j: int) -> bool {
    &&& marker_at(s, i, j)
    &&& i + 2 < j
    &&& forall|k: int| i + 2 <= k < j ==> !is_ws_char(#[trigger] s[k])
}

/// A helper placeholder: a head not starting with `#` or `/`, then whitespace.
pub open spec fn helper_marker_at(s: Seq<char>, i: int, j: int) -> bool {
    &&& marker_at(s, i, j)
    &&& i + 2 < j
    &&& s[i + 2] != '#'
    &&& s[i + 2] != '/'
    &&& !is_ws_char(s[i + 2])
    &&& exists|k: int| i + 2 < k < j && is_ws_char(#[trigger] s[k])
}

/// A complete block-open marker.
pub open spec fn block_open_marker_at(s: Seq<char>, i: int, j: int) -> bool {
    &&& marker_at(s, i, j)
    &&& i + 3 < j
    &&& s[i + 2] == '#'
}

/// A complete block-close marker.
pub open spec fn block_close_marker_at(s: Seq<char>, i: int, j: int) -> bool {
    &&& marker_at(s, i, j)
    &&& i + 3 < j
    &&& s[i + 2] == '/'
}

pub open spec fn contains_simple_marker(s: Seq<char>) -> bool {
    exists|i: int, j: int| simple_marker_at(s, i, j)
}

pub open spec fn contains_helper_marker(s: Seq<char>) -> bool {
    exists|i: int, j: int| helper_marker_at(s, i, j)
}

pub open spec fn contains_block_open_marker(s: Seq<char>) -> bool {
    exists|i: int, j: int| block_open_marker_at(s, i, j)
}

pub open spec fn contains_block_close_marker(s: Seq<char>) -> bool {
    exists|i: int, j: int| block_close_marker_at(s, i, j)
}

pub open spec fn contains_char(s: Seq<char>, c: char) -> bool {
    exists|i: int| 0 <= i < s.len() && s[i] == c
}

pub open spec fn contains_open(s: Seq<char>) -> bool {
    exists|i: int| open_at(s, i)
}

pub open spec fn contains_close(s: Seq<char>) -> bool {
    exists|i: int| close_at(s, i)
}

pub open spec fn contains_bare_block_open(s: Seq<char>) -> bool {
    exists|i: int| bare_block_open_at(s, i)
}

/// Non-overlapping occurrences of the doubled character `cc`, scanning from
/// `i` and skipping past each occurrence found.
pub open spec fn count_double_from(s: Seq<char>, c: char, i: int) -> int
    decreases s.len() - i,
{
    if i + 2 > s.len() {
        0
    } else if s[i] == c && s[i + 1] == c {
        1 + count_double_from(s, c, i + 2)
    } else {
        count_double_from(s, c, i + 1)
    }
}

/// Non-overlapping occurrences of a double open brace followed by the mark
/// `m`, scanning from `i`.
pub open spec fn count_block_from(s: Seq<char>, m: char, i: int) -> int
    decreases s.len() - i,
{
    if i + 3 > s.len() {
        0
    } else if s[i] == '{' && s[i + 1] == '{' && s[i + 2] == m {
        1 + count_block_from(s, m, i + 3)
    } else {
        count_block_from(s, m, i + 1)
    }
}

/// The characters of a string, in order.
pub fn chars_of(s: &str) -> (r: Vec<char>)
    ensures
        r@ == s@,
{
    let n = s.unicode_len();
    let mut r: Vec<char> = Vec::new();
    let mut i: usize = 0;
    while i < n
        invariant
            n == s@.len(),
            i <= n,
            r@.len() == i,
            forall|k: int| 0 <= k < i ==> r@[k] == s@[k],
        decreases n - i,
    {
        r.push(s.get_char(i));
        i = i + 1;
    }
    assert(r@ =~= s@);
    r
}

/// Whether two strings hold the same characters.
pub fn str_eq(a: &str, b: &str) -> (r: bool)
    ensures
        r == (a@ == b@),
{
    let na = a.unicode_len();
    let nb = b.unicode_len();
    if na != nb {
        return false;
    }
    let mut i: usize = 0;
    while i < na
        invariant
            na == a@.len(),
            na == b@.len(),
            i <= na,
            forall|k: int| 0 <= k < i ==> a@[k] == b@[k],
        decreases na - i,
    {
        if a.get_char(i) != b.get_char(i) {
            return false;
        }
        i = i + 1;
    }
    assert(a@ =~= b@);
    true
}

/// Whether a string and an optional string hold the same characters.
pub fn opt_str_eq(a: &Option<String>, b: &str) -> (r: bool)
    ensures
        r == (a.deep_view() == Some(b@)),
{
    match a {
        Some(x) => str_eq(x.as_str(), b),
        None => false,
    }
}

fn ws_char(c: char) -> (r: bool)
    ensures
        r == is_ws_char(c),
{
    c == ' ' || c == '\t' || c == '\n' || c == '\r'
}

/// Index of the first brace at or past `start`, if any.
fn first_brace_from(v: &Vec<char>, start: usize) -> (r: Option<usize>)
    requires
        start <= v.len(),
    ensures
        match r {
            Some(b) => {
                &&& start <= b < v.len()
                &&& is_brace_char(v@[b as int])
                &&& forall|k: int| start <= k < b ==> !is_brace_char(#[trigger] v@[k])
            },
            None => forall|k: int| start <= k < v@.len() ==> !is_brace_char(#[trigger] v@[k]),
        },
{
    let mut i: usize = start;
    while i < v.len()
        invariant
            start <= i <= v.len(),
            forall|k: int| start <= k < i ==> !is_brace_char(#[trigger] v@[k]),
        decreases v.len() - i,
    {
        let c = v[i];
        if c == '{' || c == '}' {
            return Some(i);
        }
        i = i + 1;
    }
    None
}

/// Whether any whitespace stands in `[lo, hi)`.
fn ws_between(v: &Vec<char>, lo: usize, hi: usize) -> (r: bool)
    requires
        lo <= hi <= v.len(),
    ensures
        r == exists|k: int| lo <= k < hi && is_ws_char(#[trigger] v@[k]),
{
    let mut i: usize = lo;
    while i < hi
        invariant
            lo <= i <= hi <= v.len(),
            forall|k: int| lo <= k < i ==> !is_ws_char(#[trigger] v@[k]),
        decreases hi - i,
    {
        if ws_char(v[i]) {
            return true;
        }
        i = i + 1;
    }
    false
}

/// Whether the character `c` occurs anywhere.
pub fn find_char(v: &Vec<char>, c: char) -> (r: bool)
    ensures
        r == contains_char(v@, c),
{
    let mut i: usize = 0;
    while i < v.len()
        invariant
            i <= v.len(),
            forall|k: int| 0 <= k < i ==> v@[k] != c,
        decreases v.len() - i,
    {
        if v[i] == c {
            return true;
        }
        i = i + 1;
    }
    false
}

/// Whether a double occurrence of `c` stands anywhere.
pub fn find_double(v: &Vec<char>, c: char) -> (r: bool)
    ensures
        c == '{' ==> r == contains_open(v@),
        c == '}' ==> r == contains_close(v@),
{
    let mut i: usize = 0;
    while i < v.len() && i + 1 < v.len()
        invariant
            i <= v.len(),
            forall|k: int| 0 <= k < i && k + 2 <= v@.len() ==> !(#[trigger] v@[k] == c && v@[k + 1]
                == c),
        decreases v.len() - i,
    {
        if v[i] == c && v[i + 1] == c {
            proof {
                if c == '{' {
                    assert(open_at(v@, i as int));
                }
                if c == '}' {
                    assert(close_at(v@, i as int));
                }
            }
            return true;
        }
        i = i + 1;
    }
    false
}

/// Whether a bare block-open introducer stands anywhere.
pub fn find_bare_block_open(v: &Vec<char>) -> (r: bool)
    ensures
        r == contains_bare_block_open(v@),
{
    let mut i: usize = 0;
    while i < v.len() && i + 1 < v.len() && i + 2 < v.len()
        invariant
            i <= v.len(),
            forall|k: int| 0 <= k < i ==> !bare_block_open_at(v@, k),
        decreases v.len() - i,
    {
        if v[i] == '{' && v[i + 1] == '{' && v[i + 2] == '#' {
            assert(bare_block_open_at(v@, i as int));
            return true;
        }
        i = i + 1;
    }
    false
}

/// In a marker starting at `i` whose content is brace-free, the closing pair
/// can only stand at the first brace past the content's start.
proof fn lemma_marker_close_is_first_brace(s: Seq<char>, i: int, j: int, b: int)
    requires
        marker_at(s, i, j),
        i + 2 <= b < s.len(),
        is_brace_char(s[b]),
        forall|k: int| i + 2 <= k < b ==> !is_brace_char(#[trigger] s[k]),
    ensures
        j == b,
{
    if j < b {
        assert(is_brace_char(s[j]));
        assert(false);
    }
    if j > b {
        assert(!is_brace_char(s[b]));
        assert(false);
    }
}

/// One pass over the text deciding which marker kinds it holds:
/// simple, helper, block open, block close.
pub fn scan_markers(v: &Vec<char>) -> (r: (bool, bool, bool, bool))
    ensures
        r.0 == contains_simple_marker(v@),
        r.1 == contains_helper_marker(v@),
        r.2 == contains_block_open_marker(v@),
        r.3 == contains_block_close_marker(v@),
{
    let ghost s = v@;
    let mut simple = false;
    let mut helper = false;
    let mut bopen = false;
    let mut bclose = false;
    let mut i: usize = 0;
    while i < v.len()
        invariant
            i <= v.len(),
            s == v@,
            simple == exists|a: int, j: int| a < i && simple_marker_at(s, a, j),
            helper == exists|a: int, j: int| a < i && helper_marker_at(s, a, j),
            bopen == exists|a: int, j: int| a < i && block_open_marker_at(s, a, j),
            bclose == exists|a: int, j: int| a < i && block_close_marker_at(s, a, j),
        decreases v.len() - i,
    {
        let ghost ii = i as int;
        if i + 1 < v.len() && v[i] == '{' && v[i + 1] == '{' {
            match first_brace_from(v, i + 2) {
                Some(b) => {
                    if b + 1 < v.len() && v[b] == '}' && v[b + 1] == '}' && b > i + 2 {
                        // Every marker starting at i closes exactly at b.
                        proof {
                            assert forall|j: int| marker_at(s, ii, j) implies j == b as int by {
                                lemma_marker_close_is_first_brace(s, ii, j, b as int);
                            }
                        }
                        let anyws = ws_between(v, i + 2, b);
                        if !anyws {
                            simple = true;
                            assert(simple_marker_at(s, ii, b as int));
                        }
                        let c0 = v[i + 2];
                        if c0 == '#' {
                            if b > i + 3 {
                                bopen = true;
                                assert(block_open_marker_at(s, ii, b as int));
                            }
                        } else if c0 == '/' {
                            if b > i + 3 {
                                bclose = true;
                                assert(block_close_marker_at(s, ii, b as int));
                            }
                        } else if !ws_char(c0) && anyws {
                            proof {
                                let k = choose|k: int| ii + 2 <= k < b && is_ws_char(s[k]);
                                assert(k != ii + 2);
                                assert(ii + 2 < k < b && is_ws_char(s[k]));
                            }
                            helper = true;
                            assert(helper_marker_at(s, ii, b as int));
                        }
                    } else {
                        // The first brace is no closing pair, or the content
                        // is empty: nothing starts at i.
                        proof {
                            assert forall|j: int| !marker_at(s, ii, j) || j == b as int by {
                                if marker_at(s, ii, j) {
                                    lemma_marker_close_is_first_brace(s, ii, j, b as int);
                                }
                            }
                        }
                    }
                },
                None => {
                    proof {
                        assert forall|j: int| !marker_at(s, ii, j) by {
                            if marker_at(s, ii, j) {
                                assert(is_brace_char(s[j]));
                                assert(false);
                            }
                        }
                    }
                },
            }
        }
        proof {
            // No marker of any kind starts between the old and the new index
            // unless a flag was just set with that start.
        }
        i = i + 1;
    }
    proof {
        assert forall|a: int, j: int| simple_marker_at(s, a, j) implies a < v.len() by {}
        assert forall|a: int, j: int| helper_marker_at(s, a, j) implies a < v.len() by {}
        assert forall|a: int, j: int| block_open_marker_at(s, a, j) implies a < v.len() by {}
        assert forall|a: int, j: int| block_close_marker_at(s, a, j) implies a < v.len() by {}
    }
    (simple, helper, bopen, bclose)
}

/// Count non-overlapping double occurrences of `c`.
pub fn count_double(v: &Vec<char>, c: char) -> (r: usize)
    ensures
        r as int == count_double_from(v@, c, 0),
{
    let mut acc: usize = 0;
    let mut i: usize = 0;
    while i < v.len() && i + 1 < v.len()
        invariant
            i <= v.len(),
            acc <= i,
            acc + count_double_from(v@, c, i as int) == count_double_from(v@, c, 0),
        decreases v.len() - i,
    {
        if v[i] == c && v[i + 1] == c {
            assert(count_double_from(v@, c, i as int) == 1 + count_double_from(v@, c, i + 2));
            acc = acc + 1;
            i = i + 2;
        } else {
            assert(count_double_from(v@, c, i as int) == count_double_from(v@, c, i + 1));
            i = i + 1;
        }
    }
    assert(count_double_from(v@, c, i as int) == 0);
    acc
}

/// Count non-overlapping block introducers `{{` followed by the mark `m`.
pub fn count_block_marks(v: &Vec<char>, m: char) -> (r: usize)
    ensures
        r as int == count_block_from(v@, m, 0),
{
    let mut acc: usize = 0;
    let mut i: usize = 0;
    while i < v.len() && i + 1 < v.len() && i + 2 < v.len()
        invariant
            i <= v.len(),
            acc <= i,
            acc + count_block_from(v@, m, i as int) == count_block_from(v@, m, 0),
        decreases v.len() - i,
    {
        if v[i] == '{' && v[i + 1] == '{' && v[i + 2] == m {
            assert(count_block_from(v@, m, i as int) == 1 + count_block_from(v@, m, i + 3));
            acc = acc + 1;
            i = i + 3;
        } else {
            assert(count_block_from(v@, m, i as int) == count_block_from(v@, m, i + 1));
            i = i + 1;
        }
    }
    assert(count_block_from(v@, m, i as int) == 0);
    acc
}

/// Whether every double opening brace is balanced by a double closing brace,
/// counting non-overlapping occurrences of each.
pub fn is_simple_placeholders_completely_closed(text: &str) -> (r: bool)
    ensures
        r == (count_double_from(text@, '{', 0) == count_double_from(text@, '}', 0)),
{
    let v = chars_of(text);
    let opens = count_double(&v, '{');
    let closes = count_double(&v, '}');
    opens == closes
}

} // verus!
