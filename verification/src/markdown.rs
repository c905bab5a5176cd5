//! The markdown helper: block and inline events of a Markdown source mapped
//! to paragraph, heading and run token sequences.

use crate::builders::{
    char_text_tokens, heading_prequel_tokens, m_wp_end, m_wp_start, paragraph_prequel_tokens,
    paragraph_sequel_tokens, heading_sequel_tokens, run_end_token, run_start_token, spec_char_text,
    spec_heading_prequel, spec_paragraph_prequel, spec_paragraph_sequel, spec_run_end,
    spec_run_start, wp_end, wp_start,
};
use crate::model::{Token, TokenModel};
use crate::strutil::{dec_of, u64_to_string};
use vstd::prelude::*;
use vstd::string::StringExecFns;

verus! {

#[verifier::external_type_specification]
#[verifier::external_body]
pub struct ExMdRawEvent<'a>(pulldown_cmark::Event<'a>);

#[verifier::external_type_specification]
#[verifier::external_body]
pub struct ExMdRawTag<'a>(pulldown_cmark::Tag<'a>);

/// The Markdown structures the renderer reacts to.
#[derive(Debug, Clone, Copy, PartialEq, Eq, Structural)]
pub enum MdTag {
    /// A heading with its level.
    Heading(u32),
    Paragraph,
    Emphasis,
    /// Any other block or inline structure, passed over.
    Other,
}

/// One event of the Markdown parse.
#[derive(Debug)]
pub enum MdEvent {
    Start(MdTag),
    Text(String),
    End(MdTag),
    /// Any event that rendering passes over.
    Other,
}

/// Mathematical picture of an [`MdEvent`].
#[verifier::ext_equal]
pub enum MdEventModel {
    Start(MdTag),
    Text(Seq<char>),
    End(MdTag),
    Other,
}

impl DeepView for MdEvent {
    type V = MdEventModel;

    open spec fn deep_view(&self) -> MdEventModel {
        match self {
            MdEvent::Start(t) => MdEventModel::Start(*t),
            MdEvent::Text(s) => MdEventModel::Text(s@),
            MdEvent::End(t) => MdEventModel::End(*t),
            MdEvent::Other => MdEventModel::Other,
        }
    }
}

/// The event sequence that the Markdown parser yields for the source text,
/// with strikethrough enabled.
pub uninterp spec fn md_events_of(s: Seq<char>) -> Seq<MdEventModel>;

/// Relies on pulldown_cmark::Tag: the heading, paragraph and emphasis
/// variants are told apart; everything else is passed over.
#[verifier::external_body]
fn md_tag_of(t: &pulldown_cmark::Tag) -> MdTag {
    match t {
        pulldown_cmark::Tag::Heading(l) => MdTag::Heading(*l),
        pulldown_cmark::Tag::Paragraph => MdTag::Paragraph,
        pulldown_cmark::Tag::Emphasis => MdTag::Emphasis,
        _ => MdTag::Other,
    }
}

/// Relies on pulldown_cmark::Event: start, end and text events are told
/// apart; everything else is passed over.
#[verifier::external_body]
fn md_event_of(e: &pulldown_cmark::Event) -> MdEvent {
    match e {
        pulldown_cmark::Event::Start(t) => MdEvent::Start(md_tag_of(t)),
        pulldown_cmark::Event::End(t) => MdEvent::End(md_tag_of(t)),
        pulldown_cmark::Event::Text(t) => MdEvent::Text(t.to_string()),
        _ => MdEvent::Other,
    }
}

/// Relies on pulldown_cmark::Parser::new_ext: it yields the block and inline
/// events of the Markdown source in order; the result depends on the source
/// text alone.
#[verifier::external_body]
pub fn parse_markdown(s: &str) -> (r: Vec<MdEvent>)
    ensures
        r.deep_view() == md_events_of(s@),
{
    let mut markdown_options = pulldown_cmark::Options::empty();
    markdown_options.insert(pulldown_cmark::Options::ENABLE_STRIKETHROUGH);
    pulldown_cmark::Parser::new_ext(s, markdown_options).map(|e| md_event_of(&e)).collect()
}

/// The heading style name for a heading level.
pub open spec fn spec_heading_style(level: u32) -> Seq<char> {
    "Heading"@ + dec_of((level + 1) as nat)
}

/// The tokens opening a Markdown structure, and the inline mode afterwards.
pub open spec fn spec_tag_start(tag: MdTag, inline: bool) -> (Seq<TokenModel>, bool) {
    match tag {
        MdTag::Heading(l) => (spec_heading_prequel(spec_heading_style(l)), inline),
        MdTag::Paragraph => (spec_paragraph_prequel(), inline),
        MdTag::Emphasis => (
            seq![
                spec_run_start(),
                m_wp_start("rPr"@, Seq::empty()),
                m_wp_start("i"@, Seq::empty()),
                m_wp_end("i"@),
                m_wp_start("iCs"@, Seq::empty()),
                m_wp_end("iCs"@),
                m_wp_end("rPr"@),
            ],
            true,
        ),
        MdTag::Other => (Seq::empty(), inline),
    }
}

/// The tokens closing a Markdown structure, and the inline mode afterwards.
pub open spec fn spec_tag_end(tag: MdTag, inline: bool) -> (Seq<TokenModel>, bool) {
    match tag {
        MdTag::Heading(_) => (spec_paragraph_sequel(), inline),
        MdTag::Paragraph => (spec_paragraph_sequel(), inline),
        MdTag::Emphasis => (seq![spec_run_end()], false),
        MdTag::Other => (Seq::empty(), inline),
    }
}

/// The tokens for one Markdown event, and the inline mode afterwards: inline
/// text is spaced and joined to the open run, block text gets a run of its
/// own.
pub open spec fn spec_md_step(inline: bool, e: MdEventModel) -> (Seq<TokenModel>, bool) {
    match e {
        MdEventModel::Start(tag) => spec_tag_start(tag, inline),
        MdEventModel::End(tag) => spec_tag_end(tag, inline),
        MdEventModel::Text(t) => {
            if inline {
                (spec_char_text(" "@ + t + " "@, false), inline)
            } else {
                (
                    seq![spec_run_start()] + spec_char_text(t, true) + seq![spec_run_end()],
                    inline,
                )
            }
        },
        MdEventModel::Other => (Seq::empty(), inline),
    }
}

/// The tokens and inline mode after the first `i` Markdown events.
pub open spec fn spec_md_upto(events: Seq<MdEventModel>, i: int) -> (Seq<TokenModel>, bool)
    decreases i,
{
    if i <= 0 {
        (Seq::empty(), false)
    } else {
        let prev = spec_md_upto(events, i - 1);
        let st = spec_md_step(prev.1, events[i - 1]);
        (prev.0 + st.0, st.1)
    }
}

/// The token stream for a whole Markdown source.
pub open spec fn spec_markdown_tokens(s: Seq<char>) -> Seq<TokenModel> {
    spec_md_upto(md_events_of(s), md_events_of(s).len() as int).0
}

/// Build the heading style name for a heading level.
fn heading_style_name(level: u32) -> (r: String)
    ensures
        r@ == spec_heading_style(level),
{
    proof {
        reveal_strlit("Heading");
    }
    let mut s = "Heading".to_owned();
    let n = u64_to_string(level as u64 + 1);
    s.append(n.as_str());
    s
}

/// The tokens opening one Markdown structure; emphasis switches to inline.
pub fn cmark_tag_to_wp_tag_start(cmark_tag: &MdTag, is_inline: &mut bool) -> (r: Vec<Token>)
    ensures
        (r.deep_view(), *final (is_inline)) == spec_tag_start(*cmark_tag, *old(is_inline)),
{
    match cmark_tag {
        MdTag::Heading(level) => {
            let style = heading_style_name(*level);
            heading_prequel_tokens(style.as_str())
        },
        MdTag::Paragraph => paragraph_prequel_tokens(),
        MdTag::Emphasis => {
            *is_inline = true;
            let r = vec![
                run_start_token(),
                wp_start("rPr", Vec::new()),
                wp_start("i", Vec::new()),
                wp_end("i"),
                wp_start("iCs", Vec::new()),
                wp_end("iCs"),
                wp_end("rPr"),
            ];
            proof {
                assert(r.deep_view() =~~= spec_tag_start(MdTag::Emphasis, *old(is_inline)).0);
            }
            r
        },
        MdTag::Other => Vec::new(),
    }
}

/// The tokens closing one Markdown structure; emphasis leaves inline mode.
pub fn cmark_tag_to_wp_tag_end(cmark_tag: &MdTag, is_inline: &mut bool) -> (r: Vec<Token>)
    ensures
        (r.deep_view(), *final (is_inline)) == spec_tag_end(*cmark_tag, *old(is_inline)),
{
    match cmark_tag {
        MdTag::Heading(_) => heading_sequel_tokens(),
        MdTag::Paragraph => paragraph_sequel_tokens(),
        MdTag::Emphasis => {
            *is_inline = false;
            let r = vec![run_end_token()];
            proof {
                assert(r.deep_view() =~~= seq![spec_run_end()]);
            }
            r
        },
        MdTag::Other => Vec::new(),
    }
}

/// Convert Markdown source into a token stream: headings and paragraphs wrap
/// their text in styled paragraphs, emphasised text rides in its own run.
pub fn markdown_to_tokens(md_text: &str) -> (r: Vec<Token>)
    ensures
        r.deep_view() == spec_markdown_tokens(md_text@),
{
    let events = parse_markdown(md_text);
    let ghost em = events.deep_view();
    let mut result: Vec<Token> = Vec::new();
    let mut is_inline = false;
    let mut i: usize = 0;
    while i < events.len()
        invariant
            i <= events.len(),
            em == events.deep_view(),
            em.len() == events@.len(),
            (result.deep_view(), is_inline) == spec_md_upto(em, i as int),
        decreases events.len() - i,
    {
        let ghost rold = result.deep_view();
        let ghost inline_old = is_inline;
        match &events[i] {
            MdEvent::Start(tag) => {
                let mut toks = cmark_tag_to_wp_tag_start(tag, &mut is_inline);
                result.append(&mut toks);
            },
            MdEvent::End(tag) => {
                let mut toks = cmark_tag_to_wp_tag_end(tag, &mut is_inline);
                result.append(&mut toks);
            },
            MdEvent::Text(x) => {
                if is_inline {
                    proof {
                        reveal_strlit(" ");
                    }
                    let mut spaced = " ".to_owned();
                    spaced.append(x.as_str());
                    spaced.append(" ");
                    let mut toks = char_text_tokens(spaced.as_str(), false);
                    result.append(&mut toks);
                } else {
                    result.push(run_start_token());
                    let mut toks = char_text_tokens(x.as_str(), true);
                    result.append(&mut toks);
                    result.push(run_end_token());
                }
            },
            MdEvent::Other => {},
        }
        proof {
            assert(em[i as int] == events@[i as int].deep_view());
            assert(result.deep_view() =~= rold + spec_md_step(inline_old, em[i as int]).0);
            assert((result.deep_view(), is_inline) == spec_md_upto(em, i as int + 1));
        }
        i = i + 1;
    }
    result
}

} // verus!
