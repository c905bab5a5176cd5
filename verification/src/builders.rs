//! Pure builders for the token sequences that rendering inserts: plain and
//! monospaced paragraphs, headings, character runs, and table scaffolding.

use crate::model::{
    EventModel, MarkupAttribute, MarkupAttributeModel, MarkupEvent, MarkupName, MarkupNameModel,
    Token, TokenModel, TokenType,
};
use crate::strutil::{dec_of, spec_split_by_empty_line, split_string_by_empty_line, u64_to_string};
use vstd::prelude::*;

verus! {

/// The namespace of word-processing elements such as paragraphs.
pub open spec fn ns_wp() -> Seq<char> {
    "http://schemas.openxmlformats.org/wordprocessingml/2006/main"@
}

/// The namespace of drawings placed in document text.
pub open spec fn ns_wpd() -> Seq<char> {
    "http://schemas.openxmlformats.org/drawingml/2006/wordprocessingDrawing"@
}

pub open spec fn ns_dwml_main() -> Seq<char> {
    "http://schemas.openxmlformats.org/drawingml/2006/main"@
}

pub open spec fn ns_dwml_pic() -> Seq<char> {
    "http://schemas.openxmlformats.org/drawingml/2006/picture"@
}

/// The relationship namespace of the package format.
pub open spec fn ns_rel() -> Seq<char> {
    "http://schemas.openxmlformats.org/officeDocument/2006/relationships"@
}

pub fn ns_wp_str() -> (r: &'static str)
    ensures
        r@ == ns_wp(),
{
    "http://schemas.openxmlformats.org/wordprocessingml/2006/main"
}

pub fn ns_wpd_str() -> (r: &'static str)
    ensures
        r@ == ns_wpd(),
{
    "http://schemas.openxmlformats.org/drawingml/2006/wordprocessingDrawing"
}

pub fn ns_dwml_main_str() -> (r: &'static str)
    ensures
        r@ == ns_dwml_main(),
{
    "http://schemas.openxmlformats.org/drawingml/2006/main"
}

pub fn ns_dwml_pic_str() -> (r: &'static str)
    ensures
        r@ == ns_dwml_pic(),
{
    "http://schemas.openxmlformats.org/drawingml/2006/picture"
}

pub fn ns_rel_str() -> (r: &'static str)
    ensures
        r@ == ns_rel(),
{
    "http://schemas.openxmlformats.org/officeDocument/2006/relationships"
}

pub open spec fn m_name(p: Option<Seq<char>>, ns: Option<Seq<char>>, l: Seq<char>)
    -> MarkupNameModel {
    MarkupNameModel { prefix: p, namespace: ns, local: l }
}

pub open spec fn m_attr(p: Option<Seq<char>>, ns: Option<Seq<char>>, l: Seq<char>, v: Seq<char>)
    -> MarkupAttributeModel {
    MarkupAttributeModel { name: m_name(p, ns, l), value: v }
}

/// The namespace bindings that one start tag declares: its own prefix bound
/// to its own namespace, when it carries both.
pub open spec fn m_bindings(p: Option<Seq<char>>, ns: Option<Seq<char>>)
    -> Seq<(Seq<char>, Seq<char>)> {
    if p is Some && ns is Some {
        seq![(p->Some_0, ns->Some_0)]
    } else {
        Seq::empty()
    }
}

/// A structural token opening the element `l` with the attributes `attrs`.
pub open spec fn m_start(
    p: Option<Seq<char>>,
    ns: Option<Seq<char>>,
    l: Seq<char>,
    attrs: Seq<MarkupAttributeModel>,
) -> TokenModel {
    TokenModel {
        token_type: TokenType::Normal,
        token_text: None,
        event: EventModel::StartElement {
            name: m_name(p, ns, l),
            attributes: attrs,
            namespace_bindings: m_bindings(p, ns),
        },
    }
}

/// A structural token closing the element `l`.
pub open spec fn m_end(p: Option<Seq<char>>, ns: Option<Seq<char>>, l: Seq<char>) -> TokenModel {
    TokenModel {
        token_type: TokenType::Normal,
        token_text: None,
        event: EventModel::EndElement { name: m_name(p, ns, l) },
    }
}

/// A character-data token holding `text`.
pub open spec fn m_chars(text: Seq<char>) -> TokenModel {
    TokenModel {
        token_type: TokenType::Normal,
        token_text: Some(text),
        event: EventModel::Characters(text),
    }
}

/// Build a possibly prefixed markup name.
pub fn owned_name(prefix: Option<&str>, ns: Option<&str>, local: &str) -> (r: MarkupName)
    ensures
        r.deep_view() == m_name(prefix.deep_view(), ns.deep_view(), local@),
{
    let p = match prefix {
        Some(s) => Some(s.to_owned()),
        None => None,
    };
    let n = match ns {
        Some(s) => Some(s.to_owned()),
        None => None,
    };
    MarkupName { prefix: p, namespace: n, local: local.to_owned() }
}

/// Build one attribute.
pub fn owned_attribute(prefix: Option<&str>, ns: Option<&str>, local: &str, value: &str) -> (r:
    MarkupAttribute)
    ensures
        r.deep_view() == m_attr(prefix.deep_view(), ns.deep_view(), local@, value@),
{
    MarkupAttribute { name: owned_name(prefix, ns, local), value: value.to_owned() }
}

/// Build a start-tag token.
pub fn start_tag_event(
    prefix: Option<&str>,
    ns: Option<&str>,
    local: &str,
    attrs: Vec<MarkupAttribute>,
) -> (r: Token)
    ensures
        r.deep_view() == m_start(prefix.deep_view(), ns.deep_view(), local@, attrs.deep_view()),
{
    let bindings: Vec<(String, String)> = match (prefix, ns) {
        (Some(p), Some(n)) => vec![(p.to_owned(), n.to_owned())],
        _ => Vec::new(),
    };
    proof {
        assert(bindings.deep_view() =~~= m_bindings(prefix.deep_view(), ns.deep_view()));
    }
    Token {
        token_type: TokenType::Normal,
        token_text: None,
        event: MarkupEvent::StartElement {
            name: owned_name(prefix, ns, local),
            attributes: attrs,
            namespace_bindings: bindings,
        },
    }
}

/// Build an end-tag token.
pub fn end_tag_event(prefix: Option<&str>, ns: Option<&str>, local: &str) -> (r: Token)
    ensures
        r.deep_view() == m_end(prefix.deep_view(), ns.deep_view(), local@),
{
    Token {
        token_type: TokenType::Normal,
        token_text: None,
        event: MarkupEvent::EndElement { name: owned_name(prefix, ns, local) },
    }
}

/// Build a character-data token.
pub fn characters_token(text: &str) -> (r: Token)
    ensures
        r.deep_view() == m_chars(text@),
{
    Token {
        token_type: TokenType::Normal,
        token_text: Some(text.to_owned()),
        event: MarkupEvent::Characters(text.to_owned()),
    }
}

/// Build a start-tag token in the word-processing namespace.
pub fn wp_start(local: &str, attrs: Vec<MarkupAttribute>) -> (r: Token)
    ensures
        r.deep_view() == m_wp_start(local@, attrs.deep_view()),
{
    start_tag_event(Some("w"), Some(ns_wp_str()), local, attrs)
}

/// Build an end-tag token in the word-processing namespace.
pub fn wp_end(local: &str) -> (r: Token)
    ensures
        r.deep_view() == m_wp_end(local@),
{
    end_tag_event(Some("w"), Some(ns_wp_str()), local)
}

pub open spec fn m_wp_start(l: Seq<char>, attrs: Seq<MarkupAttributeModel>) -> TokenModel {
    m_start(Some("w"@), Some(ns_wp()), l, attrs)
}

pub open spec fn m_wp_end(l: Seq<char>) -> TokenModel {
    m_end(Some("w"@), Some(ns_wp()), l)
}

/// An attribute in the word-processing namespace.
pub open spec fn m_wp_attr(l: Seq<char>, v: Seq<char>) -> MarkupAttributeModel {
    m_attr(Some("w"@), Some(ns_wp()), l, v)
}

pub fn wp_attr(local: &str, value: &str) -> (r: MarkupAttribute)
    ensures
        r.deep_view() == m_wp_attr(local@, value@),
{
    owned_attribute(Some("w"), Some(ns_wp_str()), local, value)
}

/// The opening token of a bare paragraph.
pub open spec fn spec_paragraph_prequel() -> Seq<TokenModel> {
    seq![m_wp_start("p"@, Seq::empty())]
}

/// The tokens opening a styled heading paragraph.
pub open spec fn spec_heading_prequel(style: Seq<char>) -> Seq<TokenModel> {
    seq![
        m_wp_start("p"@, Seq::empty()),
        m_wp_start("pPr"@, Seq::empty()),
        m_wp_start("pStyle"@, seq![m_wp_attr("val"@, style)]),
        m_wp_end("pStyle"@),
        m_wp_end("pPr"@),
    ]
}

/// The closing token of a paragraph.
pub open spec fn spec_paragraph_sequel() -> Seq<TokenModel> {
    seq![m_wp_end("p"@)]
}

/// The opening token of a character run.
pub open spec fn spec_run_start() -> TokenModel {
    m_wp_start("r"@, Seq::empty())
}

/// The closing token of a character run.
pub open spec fn spec_run_end() -> TokenModel {
    m_wp_end("r"@)
}

/// The text element holding `text`, optionally asking for spaces to be kept.
pub open spec fn spec_char_text(text: Seq<char>, preserve_space: bool) -> Seq<TokenModel> {
    let attrs: Seq<MarkupAttributeModel> = if preserve_space {
        seq![m_attr(Some("xml"@), None, "space"@, "preserve"@)]
    } else {
        Seq::empty()
    };
    seq![m_wp_start("t"@, attrs), m_chars(text), m_wp_end("t"@)]
}

/// Tokens opening a bare paragraph.
pub fn paragraph_prequel_tokens() -> (r: Vec<Token>)
    ensures
        r.deep_view() == spec_paragraph_prequel(),
{
    let r = vec![wp_start("p", Vec::new())];
    assert(r.deep_view() =~~= spec_paragraph_prequel());
    r
}

/// Tokens opening a heading paragraph with the given style name.
pub fn heading_prequel_tokens(heading_style: &str) -> (r: Vec<Token>)
    ensures
        r.deep_view() == spec_heading_prequel(heading_style@),
{
    let style_attr = vec![wp_attr("val", heading_style)];
    proof {
        assert(style_attr.deep_view() =~~= seq![m_wp_attr("val"@, heading_style@)]);
    }
    let r = vec![
        wp_start("p", Vec::new()),
        wp_start("pPr", Vec::new()),
        wp_start("pStyle", style_attr),
        wp_end("pStyle"),
        wp_end("pPr"),
    ];
    assert(r.deep_view() =~~= spec_heading_prequel(heading_style@));
    r
}

/// Tokens closing a bare paragraph.
pub fn paragraph_sequel_tokens() -> (r: Vec<Token>)
    ensures
        r.deep_view() == spec_paragraph_sequel(),
{
    let r = vec![wp_end("p")];
    assert(r.deep_view() =~~= spec_paragraph_sequel());
    r
}

/// Tokens closing a heading paragraph.
pub fn heading_sequel_tokens() -> (r: Vec<Token>)
    ensures
        r.deep_view() == spec_paragraph_sequel(),
{
    paragraph_sequel_tokens()
}

/// The token opening a character run.
pub fn run_start_token() -> (r: Token)
    ensures
        r.deep_view() == spec_run_start(),
{
    wp_start("r", Vec::new())
}

/// The token closing a character run.
pub fn run_end_token() -> (r: Token)
    ensures
        r.deep_view() == spec_run_end(),
{
    wp_end("r")
}

/// The three tokens of a text element holding `contents`.
pub fn char_text_tokens(contents: &str, preserve_space: bool) -> (r: Vec<Token>)
    ensures
        r.deep_view() == spec_char_text(contents@, preserve_space),
{
    let attrs: Vec<MarkupAttribute> = if preserve_space {
        vec![owned_attribute(Some("xml"), None, "space", "preserve")]
    } else {
        Vec::new()
    };
    let r = vec![wp_start("t", attrs), characters_token(contents), wp_end("t")];
    assert(r.deep_view() =~~= spec_char_text(contents@, preserve_space));
    r
}

/// One bare paragraph wrapping one run of `chunk`.
pub open spec fn spec_paragraph_chunk(chunk: Seq<char>) -> Seq<TokenModel> {
    spec_paragraph_prequel() + seq![spec_run_start()] + spec_char_text(chunk, true) + seq![
        spec_run_end(),
    ] + spec_paragraph_sequel()
}

/// The paragraphs for the first `i` chunks.
pub open spec fn spec_paragraphs_upto(chunks: Seq<Seq<char>>, i: int) -> Seq<TokenModel>
    decreases i,
{
    if i <= 0 {
        Seq::empty()
    } else {
        spec_paragraphs_upto(chunks, i - 1) + spec_paragraph_chunk(chunks[i - 1])
    }
}

/// One bare paragraph per blank-line-separated chunk of `contents`.
pub open spec fn spec_paragraph_tokens(contents: Seq<char>) -> Seq<TokenModel> {
    spec_paragraphs_upto(
        spec_split_by_empty_line(contents),
        spec_split_by_empty_line(contents).len() as int,
    )
}

/// Build one bare paragraph per blank-line-separated chunk of `contents`.
pub fn paragraph_tokens(contents: &str) -> (r: Vec<Token>)
    ensures
        r.deep_view() == spec_paragraph_tokens(contents@),
{
    let chunks = split_string_by_empty_line(contents);
    let ghost cm = chunks.deep_view();
    let mut r: Vec<Token> = Vec::new();
    let mut i: usize = 0;
    while i < chunks.len()
        invariant
            i <= chunks.len(),
            cm == chunks.deep_view(),
            cm.len() == chunks@.len(),
            r.deep_view() == spec_paragraphs_upto(cm, i as int),
        decreases chunks.len() - i,
    {
        let ghost rold = r.deep_view();
        let mut prequel = paragraph_prequel_tokens();
        r.append(&mut prequel);
        r.push(run_start_token());
        let mut chars = char_text_tokens(chunks[i].as_str(), true);
        r.append(&mut chars);
        r.push(run_end_token());
        let mut sequel = paragraph_sequel_tokens();
        r.append(&mut sequel);
        proof {
            assert(chunks@[i as int]@ == cm[i as int]);
            assert(r.deep_view() =~~= rold + spec_paragraph_chunk(cm[i as int]));
            assert(r.deep_view() == spec_paragraphs_upto(cm, i as int + 1));
        }
        i = i + 1;
    }
    r
}


/// The run properties asking for a monospaced face and a small size.
pub open spec fn spec_mono_run_props() -> Seq<TokenModel> {
    seq![
        m_wp_start("rPr"@, Seq::empty()),
        m_wp_start(
            "rFonts"@,
            seq![m_wp_attr("ascii"@, "Consolas"@), m_wp_attr("hAnsi"@, "Consolas"@)],
        ),
        m_wp_end("rFonts"@),
        m_wp_start("sz"@, seq![m_wp_attr("val"@, "16"@)]),
        m_wp_end("sz"@),
        m_wp_start("szCs"@, seq![m_wp_attr("val"@, "16"@)]),
        m_wp_end("szCs"@),
        m_wp_end("rPr"@),
    ]
}

/// One monospaced paragraph wrapping one run of `chunk`.
pub open spec fn spec_mono_chunk(chunk: Seq<char>) -> Seq<TokenModel> {
    spec_paragraph_prequel() + seq![m_wp_start("pPr"@, Seq::empty())] + spec_mono_run_props()
        + seq![m_wp_end("pPr"@), spec_run_start()] + spec_mono_run_props() + spec_char_text(
        chunk,
        true,
    ) + seq![spec_run_end()] + spec_paragraph_sequel()
}

/// The monospaced paragraphs for the first `i` chunks.
pub open spec fn spec_mono_upto(chunks: Seq<Seq<char>>, i: int) -> Seq<TokenModel>
    decreases i,
{
    if i <= 0 {
        Seq::empty()
    } else {
        spec_mono_upto(chunks, i - 1) + spec_mono_chunk(chunks[i - 1])
    }
}

/// One monospaced paragraph per blank-line-separated chunk of `contents`.
pub open spec fn spec_monospace_paragraph_tokens(contents: Seq<char>) -> Seq<TokenModel> {
    spec_mono_upto(
        spec_split_by_empty_line(contents),
        spec_split_by_empty_line(contents).len() as int,
    )
}

fn mono_run_props() -> (r: Vec<Token>)
    ensures
        r.deep_view() == spec_mono_run_props(),
{
    let fonts = vec![wp_attr("ascii", "Consolas"), wp_attr("hAnsi", "Consolas")];
    proof {
        assert(fonts.deep_view() =~~= seq![
            m_wp_attr("ascii"@, "Consolas"@),
            m_wp_attr("hAnsi"@, "Consolas"@),
        ]);
    }
    let sz = vec![wp_attr("val", "16")];
    let sz_cs = vec![wp_attr("val", "16")];
    proof {
        assert(sz.deep_view() =~~= seq![m_wp_attr("val"@, "16"@)]);
        assert(sz_cs.deep_view() =~~= seq![m_wp_attr("val"@, "16"@)]);
    }
    let r = vec![
        wp_start("rPr", Vec::new()),
        wp_start("rFonts", fonts),
        wp_end("rFonts"),
        wp_start("sz", sz),
        wp_end("sz"),
        wp_start("szCs", sz_cs),
        wp_end("szCs"),
        wp_end("rPr"),
    ];
    assert(r.deep_view() =~~= spec_mono_run_props());
    r
}

/// Build one monospaced paragraph per blank-line-separated chunk of
/// `contents`, used for rendering code output verbatim.
pub fn monospace_paragraph_tokens(contents: &str) -> (r: Vec<Token>)
    ensures
        r.deep_view() == spec_monospace_paragraph_tokens(contents@),
{
    let chunks = split_string_by_empty_line(contents);
    let ghost cm = chunks.deep_view();
    let mut r: Vec<Token> = Vec::new();
    let mut i: usize = 0;
    while i < chunks.len()
        invariant
            i <= chunks.len(),
            cm == chunks.deep_view(),
            cm.len() == chunks@.len(),
            r.deep_view() == spec_mono_upto(cm, i as int),
        decreases chunks.len() - i,
    {
        let ghost rold = r.deep_view();
        let mut prequel = paragraph_prequel_tokens();
        r.append(&mut prequel);
        r.push(wp_start("pPr", Vec::new()));
        let mut props = mono_run_props();
        r.append(&mut props);
        r.push(wp_end("pPr"));
        r.push(run_start_token());
        let mut run_props = mono_run_props();
        r.append(&mut run_props);
        let mut chars = char_text_tokens(chunks[i].as_str(), true);
        r.append(&mut chars);
        r.push(run_end_token());
        let mut sequel = paragraph_sequel_tokens();
        r.append(&mut sequel);
        proof {
            assert(chunks@[i as int]@ == cm[i as int]);
            assert(r.deep_view() =~~= rold + spec_mono_chunk(cm[i as int]));
            assert(r.deep_view() == spec_mono_upto(cm, i as int + 1));
        }
        i = i + 1;
    }
    r
}


pub open spec fn m_plain_attr(l: Seq<char>, v: Seq<char>) -> MarkupAttributeModel {
    m_attr(None, None, l, v)
}

fn plain_attr(local: &str, value: &str) -> (r: MarkupAttribute)
    ensures
        r.deep_view() == m_plain_attr(local@, value@),
{
    owned_attribute(None, None, local, value)
}

/// The drawing-coordinate measure of `pixels` at 72 pixels per inch.
pub open spec fn emu_of(pixels: u32) -> int {
    pixels as int * 914400 / 72 + 2540
}

/// The tokens of one paragraph holding one inline image anchor: the picture
/// is `width` by `height` pixels, referenced through the relationship `rel`,
/// and numbered `serial` within the document.
pub open spec fn spec_image_paragraph(rel: Seq<char>, width: u32, height: u32, serial: int)
    -> Seq<TokenModel> {
    let wemu = dec_of(emu_of(width) as nat);
    let hemu = dec_of(emu_of(height) as nat);
    let sid = dec_of((10000 + serial) as nat);
    let fig = "Figure "@ + dec_of(serial as nat);
    spec_paragraph_prequel() + seq![
        spec_run_start(),
        m_wp_start("rPr"@, Seq::empty()),
        m_wp_start("noProof"@, Seq::empty()),
        m_wp_end("noProof"@),
        m_wp_end("rPr"@),
        m_wp_start("drawing"@, Seq::empty()),
        m_start(
            Some("wp"@),
            Some(ns_wpd()),
            "inline"@,
            seq![
                m_plain_attr("distT"@, "0"@),
                m_plain_attr("distB"@, "0"@),
                m_plain_attr("distL"@, "0"@),
                m_plain_attr("distR"@, "0"@),
            ],
        ),
        m_start(
            Some("wp"@),
            Some(ns_wpd()),
            "extent"@,
            seq![m_plain_attr("cx"@, wemu), m_plain_attr("cy"@, hemu)],
        ),
        m_end(Some("wp"@), Some(ns_wpd()), "extent"@),
        m_start(
            Some("wp"@),
            Some(ns_wpd()),
            "effectExtent"@,
            seq![
                m_plain_attr("l"@, "0"@),
                m_plain_attr("t"@, "0"@),
                m_plain_attr("r"@, "3810"@),
                m_plain_attr("b"@, "3810"@),
            ],
        ),
        m_end(Some("wp"@), Some(ns_wpd()), "effectExtent"@),
        m_start(
            Some("wp"@),
            Some(ns_wpd()),
            "docPr"@,
            seq![m_plain_attr("id"@, sid), m_plain_attr("name"@, fig)],
        ),
        m_end(Some("wp"@), Some(ns_wpd()), "docPr"@),
        m_start(Some("a"@), Some(ns_dwml_main()), "graphic"@, Seq::empty()),
        m_start(
            Some("a"@),
            Some(ns_dwml_main()),
            "graphicData"@,
            seq![m_plain_attr("uri"@, ns_dwml_pic())],
        ),
        m_start(Some("pic"@), Some(ns_dwml_pic()), "pic"@, Seq::empty()),
        m_start(Some("pic"@), Some(ns_dwml_pic()), "nvPicPr"@, Seq::empty()),
        m_start(
            Some("pic"@),
            Some(ns_dwml_pic()),
            "cNvPr"@,
            seq![m_plain_attr("id"@, "1"@), m_plain_attr("name"@, "Picture 1"@)],
        ),
        m_end(Some("pic"@), Some(ns_dwml_pic()), "cNvPr"@),
        m_start(Some("pic"@), Some(ns_dwml_pic()), "cNvPicPr"@, Seq::empty()),
        m_start(
            Some("a"@),
            Some(ns_dwml_main()),
            "picLocks"@,
            seq![
                m_plain_attr("noChangeAspect"@, "1"@),
                m_plain_attr("noChangeArrowheads"@, "1"@),
            ],
        ),
        m_end(Some("a"@), Some(ns_dwml_main()), "picLocks"@),
        m_end(Some("pic"@), Some(ns_dwml_pic()), "cNvPicPr"@),
        m_end(Some("pic"@), Some(ns_dwml_pic()), "nvPicPr"@),
        m_start(Some("pic"@), Some(ns_dwml_pic()), "blipFill"@, Seq::empty()),
        m_start(
            Some("a"@),
            Some(ns_dwml_main()),
            "blip"@,
            seq![m_attr(Some("r"@), Some(ns_rel()), "embed"@, rel)],
        ),
        m_end(Some("a"@), Some(ns_dwml_main()), "blip"@),
        m_start(Some("a"@), Some(ns_dwml_main()), "srcRect"@, Seq::empty()),
        m_end(Some("a"@), Some(ns_dwml_main()), "srcRect"@),
        m_start(Some("a"@), Some(ns_dwml_main()), "stretch"@, Seq::empty()),
        m_start(Some("a"@), Some(ns_dwml_main()), "fillRect"@, Seq::empty()),
        m_end(Some("a"@), Some(ns_dwml_main()), "fillRect"@),
        m_end(Some("a"@), Some(ns_dwml_main()), "stretch"@),
        m_end(Some("pic"@), Some(ns_dwml_pic()), "blipFill"@),
        m_start(
            Some("pic"@),
            Some(ns_dwml_pic()),
            "spPr"@,
            seq![m_plain_attr("bwMode"@, "auto"@)],
        ),
        m_start(Some("a"@), Some(ns_dwml_main()), "xfrm"@, Seq::empty()),
        m_start(
            Some("a"@),
            Some(ns_dwml_main()),
            "off"@,
            seq![m_plain_attr("x"@, "0"@), m_plain_attr("y"@, "0"@)],
        ),
        m_end(Some("a"@), Some(ns_dwml_main()), "off"@),
        m_start(
            Some("a"@),
            Some(ns_dwml_main()),
            "ext"@,
            seq![m_plain_attr("cx"@, wemu), m_plain_attr("cy"@, hemu)],
        ),
        m_end(Some("a"@), Some(ns_dwml_main()), "ext"@),
        m_end(Some("a"@), Some(ns_dwml_main()), "xfrm"@),
        m_start(Some("a"@), Some(ns_dwml_main()), "prstGeom"@, seq![m_plain_attr("prst"@, "rect"@)]),
        m_end(Some("a"@), Some(ns_dwml_main()), "prstGeom"@),
        m_start(Some("a"@), Some(ns_dwml_main()), "noFill"@, Seq::empty()),
        m_end(Some("a"@), Some(ns_dwml_main()), "noFill"@),
        m_end(Some("pic"@), Some(ns_dwml_pic()), "spPr"@),
        m_end(Some("pic"@), Some(ns_dwml_pic()), "pic"@),
        m_end(Some("a"@), Some(ns_dwml_main()), "graphicData"@),
        m_end(Some("a"@), Some(ns_dwml_main()), "graphic"@),
        m_end(Some("wp"@), Some(ns_wpd()), "inline"@),
        m_wp_end("drawing"@),
        spec_run_end(),
    ] + spec_paragraph_sequel()
}

/// Build one paragraph holding one inline image anchor sized from pixels.
#[verifier::rlimit(60)]
pub fn image_paragraph_tokens(relationship_id: &str, width: u32, height: u32, serial: usize) -> (r:
    Vec<Token>)
    requires
        emu_of(width) <= u32::MAX as int,
        emu_of(height) <= u32::MAX as int,
        serial + 10000 <= usize::MAX,
    ensures
        r.deep_view() == spec_image_paragraph(relationship_id@, width, height, serial as int),
{
    let width_emu_attr = u64_to_string(crate::pixels_to_word_emu(width) as u64);
    let height_emu_attr = u64_to_string(crate::pixels_to_word_emu(height) as u64);
    let serial_id = u64_to_string((10000 + serial) as u64);
    proof {
        reveal_strlit("Figure ");
    }
    let mut figure_name = "Figure ".to_owned();
    let serial_str = u64_to_string(serial as u64);
    figure_name.append(serial_str.as_str());

    let mut r: Vec<Token> = Vec::new();
    let mut prequel = paragraph_prequel_tokens();
    r.append(&mut prequel);
    r.push(run_start_token());
    r.push(wp_start("rPr", Vec::new()));
    r.push(wp_start("noProof", Vec::new()));
    r.push(wp_end("noProof"));
    r.push(wp_end("rPr"));
    r.push(wp_start("drawing", Vec::new()));
    let inline_attrs = vec![
        plain_attr("distT", "0"),
        plain_attr("distB", "0"),
        plain_attr("distL", "0"),
        plain_attr("distR", "0"),
    ];
    r.push(start_tag_event(Some("wp"), Some(ns_wpd_str()), "inline", inline_attrs));
    let extent_attrs = vec![
        plain_attr("cx", width_emu_attr.as_str()),
        plain_attr("cy", height_emu_attr.as_str()),
    ];
    r.push(start_tag_event(Some("wp"), Some(ns_wpd_str()), "extent", extent_attrs));
    r.push(end_tag_event(Some("wp"), Some(ns_wpd_str()), "extent"));
    let effect_attrs = vec![
        plain_attr("l", "0"),
        plain_attr("t", "0"),
        plain_attr("r", "3810"),
        plain_attr("b", "3810"),
    ];
    r.push(start_tag_event(Some("wp"), Some(ns_wpd_str()), "effectExtent", effect_attrs));
    r.push(end_tag_event(Some("wp"), Some(ns_wpd_str()), "effectExtent"));
    let docpr_attrs = vec![
        plain_attr("id", serial_id.as_str()),
        plain_attr("name", figure_name.as_str()),
    ];
    r.push(start_tag_event(Some("wp"), Some(ns_wpd_str()), "docPr", docpr_attrs));
    r.push(end_tag_event(Some("wp"), Some(ns_wpd_str()), "docPr"));
    r.push(start_tag_event(Some("a"), Some(ns_dwml_main_str()), "graphic", Vec::new()));
    let gd_attrs = vec![plain_attr("uri", ns_dwml_pic_str())];
    r.push(start_tag_event(Some("a"), Some(ns_dwml_main_str()), "graphicData", gd_attrs));
    r.push(start_tag_event(Some("pic"), Some(ns_dwml_pic_str()), "pic", Vec::new()));
    r.push(start_tag_event(Some("pic"), Some(ns_dwml_pic_str()), "nvPicPr", Vec::new()));
    let cnvpr_attrs = vec![plain_attr("id", "1"), plain_attr("name", "Picture 1")];
    r.push(start_tag_event(Some("pic"), Some(ns_dwml_pic_str()), "cNvPr", cnvpr_attrs));
    r.push(end_tag_event(Some("pic"), Some(ns_dwml_pic_str()), "cNvPr"));
    r.push(start_tag_event(Some("pic"), Some(ns_dwml_pic_str()), "cNvPicPr", Vec::new()));
    let locks_attrs = vec![
        plain_attr("noChangeAspect", "1"),
        plain_attr("noChangeArrowheads", "1"),
    ];
    r.push(start_tag_event(Some("a"), Some(ns_dwml_main_str()), "picLocks", locks_attrs));
    r.push(end_tag_event(Some("a"), Some(ns_dwml_main_str()), "picLocks"));
    r.push(end_tag_event(Some("pic"), Some(ns_dwml_pic_str()), "cNvPicPr"));
    r.push(end_tag_event(Some("pic"), Some(ns_dwml_pic_str()), "nvPicPr"));
    r.push(start_tag_event(Some("pic"), Some(ns_dwml_pic_str()), "blipFill", Vec::new()));
    let blip_attrs = vec![
        owned_attribute(Some("r"), Some(ns_rel_str()), "embed", relationship_id),
    ];
    r.push(start_tag_event(Some("a"), Some(ns_dwml_main_str()), "blip", blip_attrs));
    r.push(end_tag_event(Some("a"), Some(ns_dwml_main_str()), "blip"));
    r.push(start_tag_event(Some("a"), Some(ns_dwml_main_str()), "srcRect", Vec::new()));
    r.push(end_tag_event(Some("a"), Some(ns_dwml_main_str()), "srcRect"));
    r.push(start_tag_event(Some("a"), Some(ns_dwml_main_str()), "stretch", Vec::new()));
    r.push(start_tag_event(Some("a"), Some(ns_dwml_main_str()), "fillRect", Vec::new()));
    r.push(end_tag_event(Some("a"), Some(ns_dwml_main_str()), "fillRect"));
    r.push(end_tag_event(Some("a"), Some(ns_dwml_main_str()), "stretch"));
    r.push(end_tag_event(Some("pic"), Some(ns_dwml_pic_str()), "blipFill"));
    let sppr_attrs = vec![plain_attr("bwMode", "auto")];
    r.push(start_tag_event(Some("pic"), Some(ns_dwml_pic_str()), "spPr", sppr_attrs));
    r.push(start_tag_event(Some("a"), Some(ns_dwml_main_str()), "xfrm", Vec::new()));
    let off_attrs = vec![plain_attr("x", "0"), plain_attr("y", "0")];
    r.push(start_tag_event(Some("a"), Some(ns_dwml_main_str()), "off", off_attrs));
    r.push(end_tag_event(Some("a"), Some(ns_dwml_main_str()), "off"));
    let ext_attrs = vec![
        plain_attr("cx", width_emu_attr.as_str()),
        plain_attr("cy", height_emu_attr.as_str()),
    ];
    r.push(start_tag_event(Some("a"), Some(ns_dwml_main_str()), "ext", ext_attrs));
    r.push(end_tag_event(Some("a"), Some(ns_dwml_main_str()), "ext"));
    r.push(end_tag_event(Some("a"), Some(ns_dwml_main_str()), "xfrm"));
    let geom_attrs = vec![plain_attr("prst", "rect")];
    r.push(start_tag_event(Some("a"), Some(ns_dwml_main_str()), "prstGeom", geom_attrs));
    r.push(end_tag_event(Some("a"), Some(ns_dwml_main_str()), "prstGeom"));
    r.push(start_tag_event(Some("a"), Some(ns_dwml_main_str()), "noFill", Vec::new()));
    r.push(end_tag_event(Some("a"), Some(ns_dwml_main_str()), "noFill"));
    r.push(end_tag_event(Some("pic"), Some(ns_dwml_pic_str()), "spPr"));
    r.push(end_tag_event(Some("pic"), Some(ns_dwml_pic_str()), "pic"));
    r.push(end_tag_event(Some("a"), Some(ns_dwml_main_str()), "graphicData"));
    r.push(end_tag_event(Some("a"), Some(ns_dwml_main_str()), "graphic"));
    r.push(end_tag_event(Some("wp"), Some(ns_wpd_str()), "inline"));
    r.push(wp_end("drawing"));
    r.push(run_end_token());
    let mut sequel = paragraph_sequel_tokens();
    r.append(&mut sequel);
    assert(r.deep_view() =~~= spec_image_paragraph(
        relationship_id@,
        width,
        height,
        serial as int,
    ));
    r
}

} // verus!