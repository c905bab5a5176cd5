//! Parsing the placeholders embedded in one classified token's text.

use crate::grammar::{chars_of, is_brace_char, is_ws_char, open_at};
use crate::strutil::{chars_to_string, sub_chars};
use vstd::prelude::*;

verus! {

/// One parsed placeholder: an optional helper name, the expression text, and
/// the character offsets of the whole marker within the token's text.
#[derive(Debug)]
pub struct TemplatePlaceholder {
    pub helper_name: Option<String>,
    pub expression: String,
    pub start_position: usize,
    pub end_position: usize,
}

/// Mathematical picture of a [`TemplatePlaceholder`].
#[verifier::ext_equal]
pub struct PlaceholderModel {
    pub helper_name: Option<Seq<char>>,
    pub expression: Seq<char>,
    pub start_position: int,
    pub end_position: int,
}

impl DeepView for TemplatePlaceholder {
    type V = PlaceholderModel;

    open spec fn deep_view(&self) -> PlaceholderModel {
        PlaceholderModel {
            helper_name: self.helper_name.deep_view(),
            expression: self.expression@,
            start_position: self.start_position as int,
            end_position: self.end_position as int,
        }
    }
}

/// The first brace at or past `k`.
pub open spec fn first_brace(s: Seq<char>, k: int) -> Option<int>
    decreases s.len() - k,
{
    if k < 0 || k >= s.len() {
        None
    } else if is_brace_char(s[k]) {
        Some(k)
    } else {
        first_brace(s, k + 1)
    }
}

/// The first whitespace character in `[k, hi)`.
pub open spec fn first_ws(s: Seq<char>, k: int, hi: int) -> Option<int>
    decreases hi - k,
{
    if k < 0 || k >= hi || k >= s.len() {
        None
    } else if is_ws_char(s[k]) {
        Some(k)
    } else {
        first_ws(s, k + 1, hi)
    }
}

/// The first non-whitespace character in `[k, hi)`.
pub open spec fn first_nonws(s: Seq<char>, k: int, hi: int) -> Option<int>
    decreases hi - k,
{
    if k < 0 || k >= hi || k >= s.len() {
        None
    } else if !is_ws_char(s[k]) {
        Some(k)
    } else {
        first_nonws(s, k + 1, hi)
    }
}

/// The placeholder parsed from the marker `s[i..b+2)`: the head runs to the
/// first whitespace; text after the whitespace run, when there is any, is the
/// expression of a helper named by the head; a marker without one is a bare
/// expression.
pub open spec fn ph_of(s: Seq<char>, i: int, b: int) -> PlaceholderModel {
    let head_end = match first_ws(s, i + 2, b) {
        Some(w) => w,
        None => b,
    };
    let tail_start = match first_ws(s, i + 2, b) {
        Some(w) => first_nonws(s, w, b),
        None => None,
    };
    match tail_start {
        Some(p) => PlaceholderModel {
            helper_name: Some(s.subrange(i + 2, head_end)),
            expression: s.subrange(p, b),
            start_position: i,
            end_position: b + 2,
        },
        None => PlaceholderModel {
            helper_name: None,
            expression: s.subrange(i + 2, head_end),
            start_position: i,
            end_position: b + 2,
        },
    }
}

/// All placeholders from scan position `i` on, left to right and
/// non-overlapping.
pub open spec fn spec_placeholders_from(s: Seq<char>, i: int) -> Seq<PlaceholderModel>
    decreases s.len() - i,
    when i >= 0
{
    if i >= s.len() {
        Seq::empty()
    } else if open_at(s, i) {
        match first_brace(s, i + 2) {
            Some(b) => {
                if b + 2 <= s.len() && s[b] == '}' && s[b + 1] == '}' && b > i + 2 && !is_ws_char(
                    s[i + 2],
                ) {
                    seq![ph_of(s, i, b)] + spec_placeholders_from(s, b + 2)
                } else {
                    spec_placeholders_from(s, i + 1)
                }
            },
            None => spec_placeholders_from(s, i + 1),
        }
    } else {
        spec_placeholders_from(s, i + 1)
    }
}

/// The placeholders of a whole piece of text.
pub open spec fn spec_placeholders(s: Seq<char>) -> Seq<PlaceholderModel> {
    spec_placeholders_from(s, 0)
}

fn exec_first_brace(v: &Vec<char>, k: usize) -> (r: Option<usize>)
    requires
        k <= v.len(),
    ensures
        match r {
            Some(b) => first_brace(v@, k as int) == Some(b as int) && k <= b < v.len(),
            None => first_brace(v@, k as int) is None,
        },
{
    let mut i: usize = k;
    while i < v.len()
        invariant
            k <= i <= v.len(),
            first_brace(v@, k as int) == first_brace(v@, i as int),
        decreases v.len() - i,
    {
        let c = v[i];
        if c == '{' || c == '}' {
            return Some(i);
        }
        i = i + 1;
    }
    None
}

fn exec_first_ws(v: &Vec<char>, k: usize, hi: usize) -> (r: Option<usize>)
    requires
        k <= hi <= v.len(),
    ensures
        match r {
            Some(w) => first_ws(v@, k as int, hi as int) == Some(w as int) && k <= w < hi,
            None => first_ws(v@, k as int, hi as int) is None,
        },
{
    let mut i: usize = k;
    while i < hi
        invariant
            k <= i <= hi <= v.len(),
            first_ws(v@, k as int, hi as int) == first_ws(v@, i as int, hi as int),
        decreases hi - i,
    {
        let c = v[i];
        if c == ' ' || c == '\t' || c == '\n' || c == '\r' {
            return Some(i);
        }
        i = i + 1;
    }
    None
}

fn exec_first_nonws(v: &Vec<char>, k: usize, hi: usize) -> (r: Option<usize>)
    requires
        k <= hi <= v.len(),
    ensures
        match r {
            Some(w) => first_nonws(v@, k as int, hi as int) == Some(w as int) && k <= w < hi,
            None => first_nonws(v@, k as int, hi as int) is None,
        },
{
    let mut i: usize = k;
    while i < hi
        invariant
            k <= i <= hi <= v.len(),
            first_nonws(v@, k as int, hi as int) == first_nonws(v@, i as int, hi as int),
        decreases hi - i,
    {
        let c = v[i];
        if !(c == ' ' || c == '\t' || c == '\n' || c == '\r') {
            return Some(i);
        }
        i = i + 1;
    }
    None
}

/// Parse every placeholder in the text, in order of appearance.
pub fn parse_template_placeholders(text: &str) -> (r: Vec<TemplatePlaceholder>)
    ensures
        r.deep_view() == spec_placeholders(text@),
{
    let v = chars_of(text);
    let ghost s = v@;
    let mut r: Vec<TemplatePlaceholder> = Vec::new();
    let mut i: usize = 0;
    while i < v.len()
        invariant
            i <= v.len(),
            s == v@,
            r.deep_view() + spec_placeholders_from(s, i as int) =~= spec_placeholders(s),
        decreases v.len() - i,
    {
        let mut advanced = false;
        if i + 1 < v.len() && v[i] == '{' && v[i + 1] == '{' {
            match exec_first_brace(&v, i + 2) {
                Some(b) => {
                    let c2 = v[i + 2];
                    let c2_ws = c2 == ' ' || c2 == '\t' || c2 == '\n' || c2 == '\r';
                    if b + 1 < v.len() && v[b] == '}' && v[b + 1] == '}' && b > i + 2 && !c2_ws {
                        let ghost rold = r.deep_view();
                        let head_end = match exec_first_ws(&v, i + 2, b) {
                            Some(w) => w,
                            None => b,
                        };
                        let tail_start = match exec_first_ws(&v, i + 2, b) {
                            Some(w) => exec_first_nonws(&v, w, b),
                            None => None,
                        };
                        let ph = match tail_start {
                            Some(p) => {
                                let head = sub_chars(&v, i + 2, head_end);
                                let tail = sub_chars(&v, p, b);
                                TemplatePlaceholder {
                                    helper_name: Some(chars_to_string(&head)),
                                    expression: chars_to_string(&tail),
                                    start_position: i,
                                    end_position: b + 2,
                                }
                            },
                            None => {
                                let head = sub_chars(&v, i + 2, head_end);
                                TemplatePlaceholder {
                                    helper_name: None,
                                    expression: chars_to_string(&head),
                                    start_position: i,
                                    end_position: b + 2,
                                }
                            },
                        };
                        proof {
                            assert(ph.deep_view() =~~= ph_of(s, i as int, b as int));
                            assert(spec_placeholders_from(s, i as int) == seq![
                                ph_of(s, i as int, b as int),
                            ] + spec_placeholders_from(s, b + 2));
                        }
                        r.push(ph);
                        proof {
                            assert(r.deep_view() =~= rold.push(ph_of(s, i as int, b as int)));
                            assert(r.deep_view() + spec_placeholders_from(s, b + 2)
                                =~= spec_placeholders(s));
                        }
                        i = b + 2;
                        advanced = true;
                    }
                },
                None => {},
            }
        }
        if !advanced {
            proof {
                assert(spec_placeholders_from(s, i as int) == spec_placeholders_from(
                    s,
                    i as int + 1,
                ));
            }
            i = i + 1;
        }
    }
    assert(r.deep_view() =~= spec_placeholders(s));
    r
}

} // verus!
