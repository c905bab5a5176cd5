//! From markup text to a classified token stream, page geometry, and
//! template areas.

use crate::accumulator::{fsm_step, AccumulatorModel, TemplateAccumulator};
use crate::builders::ns_wp;
use crate::builders::ns_wp_str;
use crate::errors::TextkitDocxError;
use crate::grammar::{
    chars_of, contains_helper_marker, contains_simple_marker, opt_str_eq, scan_markers, str_eq,
};
use crate::model::{
    EventModel, MarkupAttribute, MarkupAttributeModel, MarkupEvent, Token, TokenModel, TokenType,
};
use crate::strutil::{parse_i32, spec_parse_i32};
use crate::xmlio::{read_markup_events, xml_events_of};
use crate::PageDimensions;
use vstd::prelude::*;

verus! {

/// Classification of a piece of text against the placeholder grammar:
/// a simple placeholder anywhere makes it a template, else a helper
/// placeholder anywhere makes it a complex template.
pub open spec fn classify_model(text: Seq<char>) -> TokenType {
    if contains_simple_marker(text) {
        TokenType::Template
    } else if contains_helper_marker(text) {
        TokenType::ComplexTemplate
    } else {
        TokenType::Normal
    }
}

/// Classify a piece of coalesced text.
pub fn classify_text(text: &str) -> (r: TokenType)
    ensures
        r == classify_model(text@),
{
    let v = chars_of(text);
    let marks = scan_markers(&v);
    if marks.0 {
        TokenType::Template
    } else if marks.1 {
        TokenType::ComplexTemplate
    } else {
        TokenType::Normal
    }
}

/// The token emitted for one piece of coalesced text.
pub open spec fn text_token_model(text: Seq<char>) -> TokenModel {
    TokenModel {
        token_type: classify_model(text),
        token_text: Some(text),
        event: EventModel::Characters(text),
    }
}

/// One tokenization step: character data feeds the accumulator, which emits
/// one classified token when it completes; any other event passes through as
/// an ordinary token while the accumulator is idle, and is dropped while a
/// placeholder is being gathered.
pub open spec fn tok_step(st: AccumulatorModel, e: EventModel) -> (AccumulatorModel, Seq<
    TokenModel,
>) {
    match e {
        EventModel::Characters(c) => {
            let st2 = fsm_step(st, c);
            match st2 {
                AccumulatorModel::Done(s) => (AccumulatorModel::Idle, seq![text_token_model(s)]),
                _ => (st2, Seq::empty()),
            }
        },
        _ => {
            if st is Idle {
                (
                    st,
                    seq![TokenModel { token_type: TokenType::Normal, token_text: None, event: e }],
                )
            } else {
                (st, Seq::empty())
            }
        },
    }
}

/// The accumulator state and tokens after the first `i` events.
pub open spec fn tokens_upto(events: Seq<EventModel>, i: int) -> (AccumulatorModel, Seq<TokenModel>)
    decreases i,
{
    if i <= 0 {
        (AccumulatorModel::Idle, Seq::empty())
    } else {
        let prev = tokens_upto(events, i - 1);
        let st = tok_step(prev.0, events[i - 1]);
        (st.0, prev.1 + st.1)
    }
}

/// The token stream read off an event sequence.
pub open spec fn spec_tokens_of(events: Seq<EventModel>) -> Seq<TokenModel> {
    tokens_upto(events, events.len() as int).1
}

/// Read a string of markup and convert it into an ordered, classified token
/// stream.  A malformed byte stream aborts with no partial result.
pub fn xml_to_token_vec(xml: &str) -> (r: Result<Vec<Token>, TextkitDocxError>)
    ensures
        match r {
            Ok(toks) => {
                &&& xml_events_of(xml@) is Some
                &&& toks.deep_view() == spec_tokens_of(xml_events_of(xml@)->Some_0)
            },
            Err(e) => xml_events_of(xml@) is None && e is FailedReadXml,
        },
{
    let events = match read_markup_events(xml) {
        Some(ev) => ev,
        None => {
            return Err(TextkitDocxError::FailedReadXml);
        },
    };
    let ghost em = events.deep_view();
    let mut result: Vec<Token> = Vec::new();
    let mut accumulator = TemplateAccumulator::Idle;
    let mut i: usize = 0;
    while i < events.len()
        invariant
            i <= events.len(),
            em == events.deep_view(),
            em.len() == events@.len(),
            (accumulator.deep_view(), result.deep_view()) == tokens_upto(em, i as int),
        decreases events.len() - i,
    {
        let ghost prev_acc = accumulator.deep_view();
        let ghost prev_toks = result.deep_view();
        match &events[i] {
            MarkupEvent::Characters(contents) => {
                accumulator.accumulate(contents.as_str());
                let done_text = match &accumulator {
                    TemplateAccumulator::Done(s) => Some(s.clone()),
                    _ => None,
                };
                match done_text {
                    Some(s) => {
                        let token_type = classify_text(s.as_str());
                        let text_copy = s.clone();
                        result.push(
                            Token {
                                token_type,
                                token_text: Some(s),
                                event: MarkupEvent::Characters(text_copy),
                            },
                        );
                        accumulator.reset();
                    },
                    None => {},
                }
            },
            _ => {
                let idle = match &accumulator {
                    TemplateAccumulator::Idle => true,
                    _ => false,
                };
                if idle {
                    result.push(
                        Token {
                            token_type: TokenType::Normal,
                            token_text: None,
                            event: events[i].clone(),
                        },
                    );
                }
            },
        }
        proof {
            assert(em[i as int] == events@[i as int].deep_view());
            assert(result.deep_view() =~~= prev_toks + tok_step(prev_acc, em[i as int]).1);
            assert((accumulator.deep_view(), result.deep_view()) == tokens_upto(em, i as int + 1));
        }
        i = i + 1;
    }
    Ok(result)
}

/// The page measurements gathered so far from section properties.
pub struct DimProbe {
    pub height: Option<i32>,
    pub width: Option<i32>,
    pub m_top: Option<i32>,
    pub m_bottom: Option<i32>,
    pub m_right: Option<i32>,
    pub m_left: Option<i32>,
    pub header: Option<i32>,
    pub footer: Option<i32>,
    pub gutter: Option<i32>,
}

/// The first attribute named `l` in the word-processing namespace, from `i`.
pub open spec fn attr_lookup_from(attrs: Seq<MarkupAttributeModel>, l: Seq<char>, i: int) -> Option<
    Seq<char>,
>
    decreases attrs.len() - i,
{
    if i < 0 || i >= attrs.len() {
        None
    } else if attrs[i].name.local == l && attrs[i].name.namespace == Some(ns_wp()) {
        Some(attrs[i].value)
    } else {
        attr_lookup_from(attrs, l, i + 1)
    }
}

/// The measurement that the attribute `l` carries, when present and numeric.
pub open spec fn dim_value(attrs: Seq<MarkupAttributeModel>, l: Seq<char>) -> Option<i32> {
    match attr_lookup_from(attrs, l, 0) {
        Some(v) => spec_parse_i32(v),
        None => None,
    }
}

/// Find the attribute `name` in the word-processing namespace and parse it.
fn fetch_attr_value(attrs: &Vec<MarkupAttribute>, name: &str) -> (r: Option<i32>)
    ensures
        r == dim_value(attrs.deep_view(), name@),
{
    let ghost am = attrs.deep_view();
    let mut i: usize = 0;
    while i < attrs.len()
        invariant
            i <= attrs.len(),
            am == attrs.deep_view(),
            am.len() == attrs@.len(),
            attr_lookup_from(am, name@, 0) == attr_lookup_from(am, name@, i as int),
        decreases attrs.len() - i,
    {
        let a = &attrs[i];
        if str_eq(a.name.local.as_str(), name) && opt_str_eq(&a.name.namespace, ns_wp_str()) {
            return parse_i32(a.value.as_str());
        }
        i = i + 1;
    }
    None
}

/// One step of the geometry scan: a page-size element resets the size pair,
/// a page-margin element resets the six margin measurements.
pub open spec fn dims_step(st: DimProbe, e: EventModel) -> DimProbe {
    match e {
        EventModel::StartElement { name, attributes, .. } => {
            let st1 = if name.local == "pgSz"@ && name.namespace == Some(ns_wp()) {
                DimProbe {
                    width: dim_value(attributes, "w"@),
                    height: dim_value(attributes, "h"@),
                    ..st
                }
            } else {
                st
            };
            if name.local == "pgMar"@ && name.namespace == Some(ns_wp()) {
                DimProbe {
                    m_top: dim_value(attributes, "top"@),
                    m_bottom: dim_value(attributes, "bottom"@),
                    m_right: dim_value(attributes, "right"@),
                    m_left: dim_value(attributes, "left"@),
                    header: dim_value(attributes, "header"@),
                    footer: dim_value(attributes, "footer"@),
                    gutter: dim_value(attributes, "gutter"@),
                    ..st1
                }
            } else {
                st1
            }
        },
        _ => st,
    }
}

/// The geometry gathered after the first `i` events.
pub open spec fn dims_upto(events: Seq<EventModel>, i: int) -> DimProbe
    decreases i,
{
    if i <= 0 {
        DimProbe {
            height: None,
            width: None,
            m_top: None,
            m_bottom: None,
            m_right: None,
            m_left: None,
            header: None,
            footer: None,
            gutter: None,
        }
    } else {
        dims_step(dims_upto(events, i - 1), events[i - 1])
    }
}

/// The complaint for the first measurement still missing, if any.
pub open spec fn first_missing_dim(st: DimProbe) -> Option<Seq<char>> {
    if st.height is None {
        Some("Page height attribute not found"@)
    } else if st.width is None {
        Some("Page width attribute not found"@)
    } else if st.m_top is None {
        Some("Page top margin attribute not found"@)
    } else if st.m_bottom is None {
        Some("Page bottom margin attribute not found"@)
    } else if st.m_right is None {
        Some("Page right margin attribute not found"@)
    } else if st.m_left is None {
        Some("Page left margin attribute not found"@)
    } else if st.header is None {
        Some("Page header margin attribute not found"@)
    } else if st.footer is None {
        Some("Page footer margin attribute not found"@)
    } else if st.gutter is None {
        Some("Page gutter attribute not found"@)
    } else {
        None
    }
}

/// Extract the page geometry from document markup: the last page-size and
/// page-margin elements decide, and every measurement must be present.
pub fn parse_page_dimensions(document_xml: &str) -> (r: Result<PageDimensions, TextkitDocxError>)
    ensures
        match r {
            Ok(d) => {
                &&& xml_events_of(document_xml@) is Some
                &&& {
                    let st = dims_upto(
                        xml_events_of(document_xml@)->Some_0,
                        xml_events_of(document_xml@)->Some_0.len() as int,
                    );
                    &&& first_missing_dim(st) is None
                    &&& st.height == Some(d.height)
                    &&& st.width == Some(d.width)
                    &&& st.m_top == Some(d.m_top)
                    &&& st.m_bottom == Some(d.m_bottom)
                    &&& st.m_right == Some(d.m_right)
                    &&& st.m_left == Some(d.m_left)
                    &&& st.header == Some(d.header)
                    &&& st.footer == Some(d.footer)
                    &&& st.gutter == Some(d.gutter)
                }
            },
            Err(TextkitDocxError::FailedReadXml) => xml_events_of(document_xml@) is None,
            Err(TextkitDocxError::Malformed(m)) => {
                &&& xml_events_of(document_xml@) is Some
                &&& {
                    let st = dims_upto(
                        xml_events_of(document_xml@)->Some_0,
                        xml_events_of(document_xml@)->Some_0.len() as int,
                    );
                    first_missing_dim(st) == Some(m@)
                }
            },
            _ => false,
        },
{
    let events = match read_markup_events(document_xml) {
        Some(ev) => ev,
        None => {
            return Err(TextkitDocxError::FailedReadXml);
        },
    };
    let ghost em = events.deep_view();
    let mut probe = DimProbe {
        height: None,
        width: None,
        m_top: None,
        m_bottom: None,
        m_right: None,
        m_left: None,
        header: None,
        footer: None,
        gutter: None,
    };
    let mut i: usize = 0;
    while i < events.len()
        invariant
            i <= events.len(),
            em == events.deep_view(),
            em.len() == events@.len(),
            probe == dims_upto(em, i as int),
        decreases events.len() - i,
    {
        let ghost prev = probe;
        match &events[i] {
            MarkupEvent::StartElement { name, attributes, .. } => {
                if str_eq(name.local.as_str(), "pgSz") && opt_str_eq(&name.namespace, ns_wp_str()) {
                    probe.width = fetch_attr_value(attributes, "w");
                    probe.height = fetch_attr_value(attributes, "h");
                }
                if str_eq(name.local.as_str(), "pgMar") && opt_str_eq(&name.namespace, ns_wp_str())
                {
                    probe.m_top = fetch_attr_value(attributes, "top");
                    probe.m_bottom = fetch_attr_value(attributes, "bottom");
                    probe.m_right = fetch_attr_value(attributes, "right");
                    probe.m_left = fetch_attr_value(attributes, "left");
                    probe.header = fetch_attr_value(attributes, "header");
                    probe.footer = fetch_attr_value(attributes, "footer");
                    probe.gutter = fetch_attr_value(attributes, "gutter");
                }
            },
            _ => {},
        }
        proof {
            assert(em[i as int] == events@[i as int].deep_view());
            assert(probe == dims_step(prev, em[i as int]));
        }
        i = i + 1;
    }
    if probe.height.is_none() {
        Err(TextkitDocxError::Malformed("Page height attribute not found".to_owned()))
    } else if probe.width.is_none() {
        Err(TextkitDocxError::Malformed("Page width attribute not found".to_owned()))
    } else if probe.m_top.is_none() {
        Err(TextkitDocxError::Malformed("Page top margin attribute not found".to_owned()))
    } else if probe.m_bottom.is_none() {
        Err(TextkitDocxError::Malformed("Page bottom margin attribute not found".to_owned()))
    } else if probe.m_right.is_none() {
        Err(TextkitDocxError::Malformed("Page right margin attribute not found".to_owned()))
    } else if probe.m_left.is_none() {
        Err(TextkitDocxError::Malformed("Page left margin attribute not found".to_owned()))
    } else if probe.header.is_none() {
        Err(TextkitDocxError::Malformed("Page header margin attribute not found".to_owned()))
    } else if probe.footer.is_none() {
        Err(TextkitDocxError::Malformed("Page footer margin attribute not found".to_owned()))
    } else if probe.gutter.is_none() {
        Err(TextkitDocxError::Malformed("Page gutter attribute not found".to_owned()))
    } else {
        Ok(
            PageDimensions {
                height: probe.height.unwrap(),
                width: probe.width.unwrap(),
                m_top: probe.m_top.unwrap(),
                m_bottom: probe.m_bottom.unwrap(),
                m_right: probe.m_right.unwrap(),
                m_left: probe.m_left.unwrap(),
                header: probe.header.unwrap(),
                footer: probe.footer.unwrap(),
                gutter: probe.gutter.unwrap(),
            },
        )
    }
}

/// The indices bounding the paragraph around one classified token.
#[derive(Debug, Clone, Copy)]
pub struct TemplateArea {
    pub context_start_index: Option<usize>,
    pub context_end_index: Option<usize>,
    pub token_index: usize,
}

/// The indices bounding the paragraph around one template token.
#[derive(Debug, Clone, Copy)]
pub struct TokenContext {
    pub context_start_index: Option<usize>,
    pub context_end_index: Option<usize>,
    pub token_index: usize,
}

/// Whether the token opens the wrapping element in the word-processing
/// namespace.
pub open spec fn is_wrap_start(tm: TokenModel, wrap: Seq<char>) -> bool {
    match tm.event {
        EventModel::StartElement { name, .. } => name.local == wrap && name.namespace == Some(
            ns_wp(),
        ),
        _ => false,
    }
}

/// Whether the token closes the wrapping element in the word-processing
/// namespace.
pub open spec fn is_wrap_end(tm: TokenModel, wrap: Seq<char>) -> bool {
    match tm.event {
        EventModel::EndElement { name } => name.local == wrap && name.namespace == Some(ns_wp()),
        _ => false,
    }
}

/// The nearest wrapping-element opening at or before `i`.  The scan takes
/// the nearest opening, not the nearest unmatched one: the two coincide for
/// the wrapping elements of this format, which do not nest.
pub open spec fn scan_back(toks: Seq<TokenModel>, i: int, wrap: Seq<char>) -> Option<int>
    decreases i,
{
    if i < 0 || i >= toks.len() {
        None
    } else if is_wrap_start(toks[i], wrap) {
        Some(i)
    } else if i == 0 {
        None
    } else {
        scan_back(toks, i - 1, wrap)
    }
}

/// The nearest wrapping-element closing at or past `i`, under the same
/// non-nesting reading as [`scan_back`].
pub open spec fn scan_fwd(toks: Seq<TokenModel>, i: int, wrap: Seq<char>) -> Option<int>
    decreases toks.len() - i,
{
    if i < 0 || i >= toks.len() {
        None
    } else if is_wrap_end(toks[i], wrap) {
        Some(i)
    } else {
        scan_fwd(toks, i + 1, wrap)
    }
}

/// Whether the token carries placeholder text of either kind.
pub open spec fn is_classified(tm: TokenModel) -> bool {
    tm.token_type == TokenType::Template || tm.token_type == TokenType::ComplexTemplate
}

/// The area around token `t`.
pub open spec fn area_of(toks: Seq<TokenModel>, t: int, wrap: Seq<char>) -> TemplateArea {
    TemplateArea {
        context_start_index: match scan_back(toks, t, wrap) {
            Some(s) => Some(s as usize),
            None => None,
        },
        context_end_index: match scan_fwd(toks, t, wrap) {
            Some(e) => Some(e as usize),
            None => None,
        },
        token_index: t as usize,
    }
}

/// The areas for all classified tokens among the first `i`.
pub open spec fn spec_areas_upto(toks: Seq<TokenModel>, wrap: Seq<char>, i: int) -> Seq<
    TemplateArea,
>
    decreases i,
{
    if i <= 0 {
        Seq::empty()
    } else {
        let prev = spec_areas_upto(toks, wrap, i - 1);
        if is_classified(toks[i - 1]) {
            prev.push(area_of(toks, i - 1, wrap))
        } else {
            prev
        }
    }
}

/// Whether the token carries a simple placeholder.
pub open spec fn is_simple_classified(tm: TokenModel) -> bool {
    tm.token_type == TokenType::Template
}

/// The contexts for all simple-template tokens among the first `i`.
pub open spec fn spec_contexts_upto(toks: Seq<TokenModel>, wrap: Seq<char>, i: int) -> Seq<
    TokenContext,
>
    decreases i,
{
    if i <= 0 {
        Seq::empty()
    } else {
        let prev = spec_contexts_upto(toks, wrap, i - 1);
        if is_simple_classified(toks[i - 1]) {
            let a = area_of(toks, i - 1, wrap);
            prev.push(
                TokenContext {
                    context_start_index: a.context_start_index,
                    context_end_index: a.context_end_index,
                    token_index: a.token_index,
                },
            )
        } else {
            prev
        }
    }
}

/// Scan outward from token `t` for the enclosing wrapping element.
fn scan_area(token_vec: &Vec<Token>, t: usize, wrap: &str) -> (r: (Option<usize>, Option<usize>))
    requires
        t < token_vec@.len(),
    ensures
        ({
            let a = area_of(token_vec.deep_view(), t as int, wrap@);
            r.0 == a.context_start_index && r.1 == a.context_end_index
        }),
{
    let ghost toks = token_vec.deep_view();
    let mut start_index: Option<usize> = None;
    let mut anchor: usize = t;
    loop
        invariant_except_break
            start_index is None,
        invariant
            anchor <= t < token_vec@.len(),
            toks == token_vec.deep_view(),
            toks.len() == token_vec@.len(),
            scan_back(toks, t as int, wrap@) == scan_back(toks, anchor as int, wrap@),
        ensures
            match start_index {
                Some(s) => scan_back(toks, t as int, wrap@) == Some(s as int),
                None => scan_back(toks, t as int, wrap@) is None,
            },
        decreases anchor,
    {
        let hit = match &token_vec[anchor].event {
            MarkupEvent::StartElement { name, .. } => str_eq(name.local.as_str(), wrap)
                && opt_str_eq(&name.namespace, ns_wp_str()),
            _ => false,
        };
        if hit {
            start_index = Some(anchor);
            proof {
                assert(is_wrap_start(toks[anchor as int], wrap@));
            }
            break ;
        }
        proof {
            assert(!is_wrap_start(toks[anchor as int], wrap@));
        }
        if anchor > 0 {
            anchor = anchor - 1;
        } else {
            proof {
                assert(scan_back(toks, 0, wrap@) is None);
            }
            break ;
        }
    }
    let mut end_index: Option<usize> = None;
    let mut fwd: usize = t;
    while fwd < token_vec.len()
        invariant_except_break
            end_index is None,
        invariant
            t <= fwd,
            toks == token_vec.deep_view(),
            toks.len() == token_vec@.len(),
            scan_fwd(toks, t as int, wrap@) == scan_fwd(toks, fwd as int, wrap@),
        ensures
            match end_index {
                Some(e) => scan_fwd(toks, t as int, wrap@) == Some(e as int),
                None => scan_fwd(toks, t as int, wrap@) is None,
            },
        decreases token_vec@.len() - fwd,
    {
        let hit = match &token_vec[fwd].event {
            MarkupEvent::EndElement { name } => str_eq(name.local.as_str(), wrap) && opt_str_eq(
                &name.namespace,
                ns_wp_str(),
            ),
            _ => false,
        };
        if hit {
            end_index = Some(fwd);
            proof {
                assert(is_wrap_end(toks[fwd as int], wrap@));
            }
            break ;
        }
        proof {
            assert(!is_wrap_end(toks[fwd as int], wrap@));
        }
        fwd = fwd + 1;
    }
    (start_index, end_index)
}

/// For each classified token, resolve the smallest enclosing wrapping
/// element: backward to the nearest opening, forward to the nearest closing.
/// Absent bounds mean the area cannot be rendered and passes through.
pub fn find_template_areas(token_vec: &Vec<Token>, wrapping_element_name: &str) -> (r: Vec<
    TemplateArea,
>)
    ensures
        r@ == spec_areas_upto(
            token_vec.deep_view(),
            wrapping_element_name@,
            token_vec@.len() as int,
        ),
{
    let ghost toks = token_vec.deep_view();
    let mut result: Vec<TemplateArea> = Vec::new();
    let mut i: usize = 0;
    while i < token_vec.len()
        invariant
            i <= token_vec@.len(),
            toks == token_vec.deep_view(),
            toks.len() == token_vec@.len(),
            result@ == spec_areas_upto(toks, wrapping_element_name@, i as int),
        decreases token_vec@.len() - i,
    {
        let tt = token_vec[i].token_type;
        if tt == TokenType::Template || tt == TokenType::ComplexTemplate {
            let bounds = scan_area(token_vec, i, wrapping_element_name);
            result.push(
                TemplateArea {
                    context_start_index: bounds.0,
                    context_end_index: bounds.1,
                    token_index: i,
                },
            );
        }
        i = i + 1;
    }
    result
}

/// For each simple-template token, resolve the enclosing wrapping element.
pub fn find_template_token_context(token_vec: &Vec<Token>, wrapping_element_name: &str) -> (r: Vec<
    TokenContext,
>)
    ensures
        r@ == spec_contexts_upto(
            token_vec.deep_view(),
            wrapping_element_name@,
            token_vec@.len() as int,
        ),
{
    let ghost toks = token_vec.deep_view();
    let mut result: Vec<TokenContext> = Vec::new();
    let mut i: usize = 0;
    while i < token_vec.len()
        invariant
            i <= token_vec@.len(),
            toks == token_vec.deep_view(),
            toks.len() == token_vec@.len(),
            result@ == spec_contexts_upto(toks, wrapping_element_name@, i as int),
        decreases token_vec@.len() - i,
    {
        let tt = token_vec[i].token_type;
        if tt == TokenType::Template {
            let bounds = scan_area(token_vec, i, wrapping_element_name);
            result.push(
                TokenContext {
                    context_start_index: bounds.0,
                    context_end_index: bounds.1,
                    token_index: i,
                },
            );
        }
        i = i + 1;
    }
    result
}

} // verus!
