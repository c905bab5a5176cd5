//! Laws the library keeps, stated over the same spec functions that the
//! executable functions' contracts use.

use crate::accumulator::{fsm_step, AccumulatorModel};
use crate::builders::m_chars;
use crate::grammar::{
    contains_bare_block_open, contains_block_close_marker, contains_block_open_marker,
    contains_char, contains_close, contains_helper_marker, contains_open, contains_simple_marker,
    count_double_from,
};
use crate::model::TokenModel;
use crate::parse::{area_of, is_classified, is_wrap_start, scan_back, scan_fwd, spec_areas_upto};
use crate::render::{spec_paste_chunk, spec_rendered_area};
use crate::strutil::spec_split_by_empty_line;
use crate::table::spec_col_width;
use crate::template::{spec_output_bytes, spec_render_pipeline, spec_rebuilt_entries,
    spec_replaced_payload, DocxTemplate, RenderState};
use crate::PageDimensions;
use vstd::arithmetic::div_mod::lemma_fundamental_div_mod;
use vstd::prelude::*;

verus! {

/// A token stream without classified text yields no template areas, so a
/// template with no placeholders renders to the re-emission of its own token
/// stream, with every other package entry kept.
pub proof fn lemma_no_placeholders_no_areas(toks: Seq<TokenModel>, wrap: Seq<char>, i: int)
    requires
        forall|k: int| 0 <= k < toks.len() ==> !is_classified(#[trigger] toks[k]),
        i <= toks.len(),
    ensures
        spec_areas_upto(toks, wrap, i).len() == 0,
    decreases i,
{
    if i > 0 {
        lemma_no_placeholders_no_areas(toks, wrap, i - 1);
    }
}

/// Part isolation: in the rebuilt package, every entry other than the
/// document markup, the relationships part and the content-type registry
/// keeps exactly its source name and bytes, whatever the data context
/// produced; and without images only the document markup may change.
pub proof fn lemma_part_isolation(
    src: Seq<(Seq<char>, Seq<u8>)>,
    doc: Seq<u8>,
    rels: Seq<u8>,
    ct: Seq<u8>,
    media: Seq<(Seq<char>, Seq<u8>)>,
    with_images: bool,
    i: int,
)
    requires
        0 <= i < src.len(),
    ensures
        spec_rebuilt_entries(src, doc, rels, ct, media, with_images)[i].0 == src[i].0,
        src[i].0 != "word/document.xml"@ && src[i].0 != "word/_rels/document.xml.rels"@ && src[i].0
            != "[Content_Types].xml"@ ==> spec_rebuilt_entries(
            src,
            doc,
            rels,
            ct,
            media,
            with_images,
        )[i] == src[i],
        !with_images && src[i].0 != "word/document.xml"@ ==> spec_rebuilt_entries(
            src,
            doc,
            rels,
            ct,
            media,
            with_images,
        )[i] == src[i],
{
    assert(spec_rebuilt_entries(src, doc, rels, ct, media, with_images)[i] == (
        src[i].0,
        spec_replaced_payload(src[i].0, src[i].1, doc, rels, ct, with_images),
    ));
}

/// Split-run reassembly: a placeholder marker split over three fragments is
/// gathered back into one piece of text.  The first fragment opens a brace
/// without completing anything; with the second the double brace is present
/// but still unclosed; the third closes every bracket pair.  The accumulator
/// then finishes with exactly the concatenation of the three fragments, so
/// the reassembled text classifies and substitutes as the unsplit text would.
pub proof fn lemma_split_marker_reassembly(f1: Seq<char>, f2: Seq<char>, f3: Seq<char>)
    requires
        contains_char(f1, '{'),
        !contains_block_open_marker(f1),
        !contains_block_close_marker(f1),
        !contains_simple_marker(f1),
        !contains_helper_marker(f1),
        !contains_block_open_marker(f1 + f2),
        !contains_block_close_marker(f1 + f2),
        !contains_bare_block_open(f1 + f2),
        !contains_simple_marker(f1 + f2),
        !contains_helper_marker(f1 + f2),
        contains_open(f1 + f2),
        contains_close(f1 + f2 + f3),
        count_double_from(f1 + f2 + f3, '{', 0) == count_double_from(f1 + f2 + f3, '}', 0),
    ensures
        fsm_step(fsm_step(fsm_step(AccumulatorModel::Idle, f1), f2), f3) == AccumulatorModel::Done(
            f1 + f2 + f3,
        ),
{
    let st1 = fsm_step(AccumulatorModel::Idle, f1);
    assert(st1 == AccumulatorModel::Accumulating {
        acc: f1,
        acc_state: crate::accumulator::AccumulationMode::Uncertain,
    });
    let st2 = fsm_step(st1, f2);
    assert(st2 == AccumulatorModel::Accumulating {
        acc: f1 + f2,
        acc_state: crate::accumulator::AccumulationMode::Simple,
    });
    let st3 = fsm_step(st2, f3);
    assert(st3 == AccumulatorModel::Done((f1 + f2) + f3));
    assert((f1 + f2) + f3 =~= f1 + f2 + f3);
}

/// A placeholder resolving to nothing never deletes its paragraph: a failed
/// or empty evaluation leaves the template area's tokens unchanged.
pub proof fn lemma_unresolved_keeps_area(
    tm: Seq<TokenModel>,
    idx: int,
    outcome: Option<Seq<char>>,
)
    requires
        outcome is None || outcome->Some_0.len() == 0,
    ensures
        spec_rendered_area(tm, idx, outcome) == tm,
{
}

/// Multi-paragraph expansion: an evaluated result whose text splits into two
/// chunks yields exactly two sibling copies of the template area, each
/// keeping every structural wrapper token and replacing only the classified
/// token's text with its chunk.
pub proof fn lemma_two_chunk_expansion(tm: Seq<TokenModel>, idx: int, text: Seq<char>)
    requires
        text.len() > 0,
        spec_split_by_empty_line(text).len() == 2,
    ensures
        spec_rendered_area(tm, idx, Some(text)) == spec_paste_chunk(
            tm,
            idx,
            spec_split_by_empty_line(text)[0],
        ) + spec_paste_chunk(tm, idx, spec_split_by_empty_line(text)[1]),
{
    let chunks = spec_split_by_empty_line(text);
    assert(spec_rendered_area(tm, idx, Some(text)) == crate::render::spec_paste_upto(
        tm,
        idx,
        chunks,
        2,
    ));
    assert(crate::render::spec_paste_upto(tm, idx, chunks, 2)
        == crate::render::spec_paste_upto(tm, idx, chunks, 1) + spec_paste_chunk(
        tm,
        idx,
        chunks[1],
    ));
    assert(crate::render::spec_paste_upto(tm, idx, chunks, 1)
        == crate::render::spec_paste_upto(tm, idx, chunks, 0) + spec_paste_chunk(
        tm,
        idx,
        chunks[0],
    ));
    assert(crate::render::spec_paste_upto(tm, idx, chunks, 0) + spec_paste_chunk(tm, idx, chunks[0])
        =~= spec_paste_chunk(tm, idx, chunks[0]));
}

/// Each pasted copy of a template area keeps every token but the classified
/// one.
pub proof fn lemma_paste_keeps_wrappers(tm: Seq<TokenModel>, idx: int, chunk: Seq<char>, k: int)
    requires
        0 <= k < tm.len(),
        0 <= idx < tm.len(),
    ensures
        k != idx ==> spec_paste_chunk(tm, idx, chunk)[k] == tm[k],
        spec_paste_chunk(tm, idx, chunk)[idx] == m_chars(chunk),
{
}

/// The grid columns of a table split the printable page width evenly: when
/// the column count divides it exactly, the column widths sum back to the
/// whole printable width.
pub proof fn lemma_grid_widths_fill_printable(dims: PageDimensions, ncols: int)
    requires
        dims.wf(),
        0 < ncols,
        (dims.width - dims.m_left - dims.m_right) % ncols == 0,
    ensures
        ncols * spec_col_width(dims, ncols) == dims.width - dims.m_left - dims.m_right,
{
    let printable = dims.width - dims.m_left - dims.m_right;
    lemma_fundamental_div_mod(printable, ncols);
}

/// A finished accumulation is terminal: once done, further fragments leave
/// the gathered text as it stands, until the machine is reset.
pub proof fn lemma_done_is_terminal(text: Seq<char>, fragment: Seq<char>)
    ensures
        fsm_step(AccumulatorModel::Done(text), fragment) == AccumulatorModel::Done(text),
{
}


/// A resolved template area brackets its own token: when both bounds are
/// present, the paragraph opening stands at or before the classified token
/// and the paragraph closing at or after it.
pub proof fn lemma_area_bounds(toks: Seq<TokenModel>, t: int, wrap: Seq<char>)
    requires
        0 <= t < toks.len(),
        toks.len() <= usize::MAX,
    ensures
        ({
            let a = area_of(toks, t, wrap);
            &&& (a.context_start_index is Some ==> a.context_start_index->Some_0 <= t)
            &&& (a.context_end_index is Some ==> t <= a.context_end_index->Some_0
                < toks.len())
            &&& a.token_index == t
        }),
{
    lemma_scan_back_at_most(toks, t, wrap);
    lemma_scan_fwd_at_least(toks, t, wrap);
}

proof fn lemma_scan_back_at_most(toks: Seq<TokenModel>, t: int, wrap: Seq<char>)
    requires
        0 <= t < toks.len(),
    ensures
        scan_back(toks, t, wrap) is Some ==> 0 <= scan_back(toks, t, wrap)->Some_0 <= t,
    decreases t,
{
    if is_wrap_start(toks[t], wrap) {
    } else if t > 0 {
        lemma_scan_back_at_most(toks, t - 1, wrap);
    }
}

proof fn lemma_scan_fwd_at_least(toks: Seq<TokenModel>, t: int, wrap: Seq<char>)
    requires
        0 <= t <= toks.len(),
    ensures
        scan_fwd(toks, t, wrap) is Some ==> t <= scan_fwd(toks, t, wrap)->Some_0 < toks.len(),
    decreases toks.len() - t,
{
    if t < toks.len() {
        lemma_scan_fwd_at_least(toks, t + 1, wrap);
    }
}


/// Classified tokens with no paragraph opening between them resolve to the
/// same starting bound, so the render pass's dedup by start index lets a
/// paragraph holding several placeholders render exactly once.
pub proof fn lemma_shared_paragraph_shares_start(
    toks: Seq<TokenModel>,
    t1: int,
    t2: int,
    wrap: Seq<char>,
)
    requires
        0 <= t1 <= t2 < toks.len(),
        forall|k: int| t1 < k <= t2 ==> !is_wrap_start(#[trigger] toks[k], wrap),
    ensures
        scan_back(toks, t2, wrap) == scan_back(toks, t1, wrap),
    decreases t2 - t1,
{
    if t2 > t1 {
        lemma_shared_paragraph_shares_start(toks, t1, t2 - 1, wrap);
    }
}


/// Rendering is deterministic: the render pass is a function of the loaded
/// template and the data value, so any two successful renders of the same
/// pair carry the same bytes.  (Only the substrate's acceptance of the
/// assembly, not its content, can differ between calls.)
pub proof fn lemma_render_deterministic(
    t: DocxTemplate,
    data: serde_json::Value,
    b1: Seq<u8>,
    b2: Seq<u8>,
)
    requires
        spec_render_pipeline(t, data) is Ok,
        b1 == spec_output_bytes(t, spec_render_pipeline(t, data)->Ok_0),
        b2 == spec_output_bytes(t, spec_render_pipeline(t, data)->Ok_0),
    ensures
        b1 == b2,
{
}

} // verus!
