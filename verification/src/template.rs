//! The loaded template and its render pass.

use crate::errors::TextkitDocxError;
use crate::grammar::{chars_of, str_eq};
use crate::jsondata::{eval_of, json_as_str, json_get, json_member_of, json_text_of};
use crate::jupyter::{decode_notebook, jupyter_nb_to_tokens, spec_decode_notebook,
    spec_jupyter_render};
use crate::markdown::{markdown_to_tokens, spec_markdown_tokens};
use crate::model::{clone_token_range, Token, TokenModel, TokenType};
use crate::parse::{
    find_template_areas, parse_page_dimensions, spec_areas_upto, spec_tokens_of, xml_to_token_vec,
    TemplateArea,
};
use crate::placeholder::{parse_template_placeholders, spec_placeholders, PlaceholderModel};
use crate::render::{
    emitted_upto, get_last_id_number_for_document_xml_rels, insert_images_in_document_xml_rels,
    insert_png_content_type, max_id_upto, render_and_paste_tokens, serializable_upto,
    spec_rels_with_images, spec_rendered_area, spec_with_png_default,
    write_token_vector_to_string, ImageFileContents, ImageModel,
};
use crate::table::{spec_decode_table, spec_table_tokens};
use crate::strutil::{bytes_to_string, chars_to_string, string_to_bytes, sub_chars, utf8_bytes_of};
use crate::table::{datakit_table_to_tokens, decode_table};
use crate::xmlio::{markup_text_of, xml_events_of};
use crate::ziparc::{
    new_zip_writer, zip_add_entry, zip_entries, zip_entry_at, zip_finish, zip_len, zip_open,
    zip_payload_of, zip_written,
};
use crate::PageDimensions;
use vstd::prelude::*;
use vstd::string::StringExecFns;

verus! {

/// A loaded word-processor package template: its entries, the three parsed
/// bookkeeping parts, the classified token stream and its template areas.
/// A loaded template is immutable and may be rendered repeatedly.
#[derive(Debug)]
pub struct DocxTemplate {
    pub entries: Vec<(String, Vec<u8>)>,
    pub document_xml: String,
    pub document_xml_rels: String,
    pub content_types: String,
    pub tokens: Vec<Token>,
    pub document_rels_tokens: Vec<Token>,
    pub content_types_tokens: Vec<Token>,
    pub dimensions: PageDimensions,
    pub template_areas: Vec<TemplateArea>,
}

impl DocxTemplate {
    /// The parsed parts agree with the markup texts they were read from.
    pub open spec fn wf(&self) -> bool {
        &&& xml_events_of(self.document_xml@) is Some
        &&& self.tokens.deep_view() == spec_tokens_of(xml_events_of(self.document_xml@)->Some_0)
        &&& self.template_areas@ == spec_areas_upto(
            self.tokens.deep_view(),
            "p"@,
            self.tokens@.len() as int,
        )
    }
}

/// The payload an entry carries in the output package: document markup is
/// replaced; when images were produced, so are the relationships part and
/// the content-type registry; every other entry keeps its bytes.
pub open spec fn spec_replaced_payload(
    name: Seq<char>,
    payload: Seq<u8>,
    doc: Seq<u8>,
    rels: Seq<u8>,
    ct: Seq<u8>,
    with_images: bool,
) -> Seq<u8> {
    if name == "word/document.xml"@ {
        doc
    } else if with_images && name == "word/_rels/document.xml.rels"@ {
        rels
    } else if with_images && name == "[Content_Types].xml"@ {
        ct
    } else {
        payload
    }
}

/// The output package's entries: the source entries in order with the named
/// parts replaced, then one media entry per image asset.
pub open spec fn spec_rebuilt_entries(
    src: Seq<(Seq<char>, Seq<u8>)>,
    doc: Seq<u8>,
    rels: Seq<u8>,
    ct: Seq<u8>,
    media: Seq<(Seq<char>, Seq<u8>)>,
    with_images: bool,
) -> Seq<(Seq<char>, Seq<u8>)> {
    Seq::new(
        src.len(),
        |i: int| (src[i].0, spec_replaced_payload(src[i].0, src[i].1, doc, rels, ct, with_images)),
    ) + media
}

/// The media entries of an image queue.
pub open spec fn spec_media_entries(images: Seq<(Seq<char>, crate::render::ImageModel)>) -> Seq<
    (Seq<char>, Seq<u8>),
> {
    Seq::new(
        images.len(),
        |k: int|
            (
                "word/media/"@ + images[k].1.file_contents.filename,
                images[k].1.file_contents.payload,
            ),
    )
}

/// Why a render pass aborts before producing a document.
pub enum RenderFailure {
    /// A resolved template area's bounds do not bracket its token in order.
    BadBounds,
    /// A helper expression's value failed its typed conversion.
    BadInput,
    /// The page geometry leaves no printable width for a table.
    NoPrintableWidth,
}

/// The pieces of the render state that a template area's content changes.
#[verifier::ext_equal]
pub struct HelperState {
    pub tokens: Seq<TokenModel>,
    pub rels_id: u64,
    pub images: Seq<(Seq<char>, ImageModel)>,
}

/// The running state of the render pass over the template areas.
#[verifier::ext_equal]
pub struct RenderState {
    pub tokens: Seq<TokenModel>,
    pub bookmark: int,
    pub seen: Seq<usize>,
    pub rels_id: u64,
    pub images: Seq<(Seq<char>, ImageModel)>,
}

/// One helper placeholder dispatched by name: `table`, `jupyter` and
/// `markdown` expand through their content generators when the expression
/// names a value; an absent value, like an unrecognized helper name,
/// produces nothing.
pub open spec fn spec_helper_dispatch(
    st: HelperState,
    helper: Seq<char>,
    expr: Seq<char>,
    data: serde_json::Value,
    dims: PageDimensions,
) -> Result<HelperState, RenderFailure> {
    if helper == "table"@ {
        match json_member_of(data, expr) {
            Some(tv) => match spec_decode_table(tv) {
                Some(cols) => if dims.wf() {
                    Ok(HelperState { tokens: st.tokens + spec_table_tokens(cols, dims), ..st })
                } else {
                    Err(RenderFailure::NoPrintableWidth)
                },
                None => Err(RenderFailure::BadInput),
            },
            None => Ok(st),
        }
    } else if helper == "jupyter"@ {
        match json_member_of(data, expr) {
            Some(nv) => match spec_decode_notebook(nv) {
                Some(nb) => {
                    let f = spec_jupyter_render(nb, st.rels_id, st.images);
                    Ok(HelperState { tokens: st.tokens + f.tokens, rels_id: f.rels_id, images: f.images })
                },
                None => Err(RenderFailure::BadInput),
            },
            None => Ok(st),
        }
    } else if helper == "markdown"@ {
        match json_member_of(data, expr) {
            Some(mv) => match json_text_of(mv) {
                Some(src) => Ok(HelperState { tokens: st.tokens + spec_markdown_tokens(src), ..st }),
                None => Err(RenderFailure::BadInput),
            },
            None => Ok(st),
        }
    } else {
        Ok(st)
    }
}

/// One placeholder of a complex area: the literal text between the cursor
/// and the placeholder renders through the plain path, then the helper
/// dispatches and the cursor moves past the marker.  A placeholder without a
/// helper name, or whose offsets do not advance the cursor within the text,
/// passes.
pub open spec fn spec_placeholder_step(
    st: HelperState,
    cursor: int,
    area: Seq<TokenModel>,
    idx: int,
    text: Seq<char>,
    ph: PlaceholderModel,
    data: serde_json::Value,
    dims: PageDimensions,
) -> Result<(HelperState, int), RenderFailure> {
    match ph.helper_name {
        Some(helper) => {
            if cursor <= ph.start_position && ph.start_position <= ph.end_position
                && ph.end_position <= text.len() {
                let st1 = if cursor != ph.start_position {
                    HelperState {
                        tokens: st.tokens + spec_rendered_area(
                            area,
                            idx,
                            eval_of(text.subrange(cursor, ph.start_position), data),
                        ),
                        ..st
                    }
                } else {
                    st
                };
                match spec_helper_dispatch(st1, helper, ph.expression, data, dims) {
                    Ok(st2) => Ok((st2, ph.end_position)),
                    Err(f) => Err(f),
                }
            } else {
                Ok((st, cursor))
            }
        },
        None => Ok((st, cursor)),
    }
}

/// The first `p` placeholders of a complex area, threading the state and the
/// literal-text cursor.
pub open spec fn spec_placeholders_fold(
    st: HelperState,
    area: Seq<TokenModel>,
    idx: int,
    text: Seq<char>,
    phs: Seq<PlaceholderModel>,
    p: int,
    data: serde_json::Value,
    dims: PageDimensions,
) -> Result<(HelperState, int), RenderFailure>
    decreases p,
{
    if p <= 0 {
        Ok((st, 0))
    } else {
        match spec_placeholders_fold(st, area, idx, text, phs, p - 1, data, dims) {
            Ok(acc) => spec_placeholder_step(acc.0, acc.1, area, idx, text, phs[p - 1], data, dims),
            Err(f) => Err(f),
        }
    }
}

proof fn lemma_placeholders_fold_err(
    st: HelperState,
    area: Seq<TokenModel>,
    idx: int,
    text: Seq<char>,
    phs: Seq<PlaceholderModel>,
    p: int,
    q: int,
    data: serde_json::Value,
    dims: PageDimensions,
)
    requires
        0 <= p <= q,
        spec_placeholders_fold(st, area, idx, text, phs, p, data, dims) is Err,
    ensures
        spec_placeholders_fold(st, area, idx, text, phs, q, data, dims) == spec_placeholders_fold(
            st,
            area,
            idx,
            text,
            phs,
            p,
            data,
            dims,
        ),
    decreases q - p,
{
    if p < q {
        lemma_placeholders_fold_err(st, area, idx, text, phs, p + 1, q, data, dims);
    }
}

/// One whole complex template area: every parsed placeholder in order, then
/// the literal text after the last one through the plain path.
pub open spec fn spec_complex_area(
    st: HelperState,
    area: Seq<TokenModel>,
    idx: int,
    text: Seq<char>,
    data: serde_json::Value,
    dims: PageDimensions,
) -> Result<HelperState, RenderFailure> {
    let phs = spec_placeholders(text);
    match spec_placeholders_fold(st, area, idx, text, phs, phs.len() as int, data, dims) {
        Ok(acc) => {
            if acc.1 < text.len() {
                Ok(
                    HelperState {
                        tokens: acc.0.tokens + spec_rendered_area(
                            area,
                            idx,
                            eval_of(text.subrange(acc.1, text.len() as int), data),
                        ),
                        ..acc.0
                    },
                )
            } else {
                Ok(acc.0)
            }
        },
        Err(f) => Err(f),
    }
}

/// One template area of the render pass: unrenderable areas pass through,
/// a paragraph already rendered is not repeated, the unchanged tokens up to
/// the area are copied, and the area renders by its classification.
pub open spec fn spec_area_step(
    st: RenderState,
    toks: Seq<TokenModel>,
    a: TemplateArea,
    data: serde_json::Value,
    dims: PageDimensions,
) -> Result<RenderState, RenderFailure> {
    match (a.context_start_index, a.context_end_index) {
        (Some(start), Some(end)) => {
            if st.seen.contains(start) {
                Ok(st)
            } else {
                let st1 = RenderState { seen: st.seen.push(start), ..st };
                if !(start <= a.token_index && a.token_index <= end && (end as int) + 1
                    <= toks.len() && st.bookmark <= start as int) {
                    Err(RenderFailure::BadBounds)
                } else {
                    let area = toks.subrange(start as int, end as int + 1);
                    let idx = (a.token_index - start) as int;
                    let st2 = RenderState {
                        tokens: st1.tokens + toks.subrange(st1.bookmark, start as int),
                        bookmark: end as int + 1,
                        ..st1
                    };
                    match area[idx].token_text {
                        Some(text) => {
                            if area[idx].token_type == TokenType::Template {
                                Ok(
                                    RenderState {
                                        tokens: st2.tokens + spec_rendered_area(
                                            area,
                                            idx,
                                            eval_of(text, data),
                                        ),
                                        ..st2
                                    },
                                )
                            } else if area[idx].token_type == TokenType::ComplexTemplate {
                                match spec_complex_area(
                                    HelperState {
                                        tokens: st2.tokens,
                                        rels_id: st2.rels_id,
                                        images: st2.images,
                                    },
                                    area,
                                    idx,
                                    text,
                                    data,
                                    dims,
                                ) {
                                    Ok(h) => Ok(
                                        RenderState {
                                            tokens: h.tokens,
                                            rels_id: h.rels_id,
                                            images: h.images,
                                            ..st2
                                        },
                                    ),
                                    Err(f) => Err(f),
                                }
                            } else {
                                Ok(st2)
                            }
                        },
                        None => Ok(st2),
                    }
                }
            }
        },
        _ => Ok(st),
    }
}

/// The first `i` template areas of the render pass.
pub open spec fn spec_areas_fold(
    st0: RenderState,
    toks: Seq<TokenModel>,
    areas: Seq<TemplateArea>,
    data: serde_json::Value,
    dims: PageDimensions,
    i: int,
) -> Result<RenderState, RenderFailure>
    decreases i,
{
    if i <= 0 {
        Ok(st0)
    } else {
        match spec_areas_fold(st0, toks, areas, data, dims, i - 1) {
            Ok(st) => spec_area_step(st, toks, areas[i - 1], data, dims),
            Err(f) => Err(f),
        }
    }
}

proof fn lemma_areas_fold_err(
    st0: RenderState,
    toks: Seq<TokenModel>,
    areas: Seq<TemplateArea>,
    data: serde_json::Value,
    dims: PageDimensions,
    i: int,
    j: int,
)
    requires
        0 <= i <= j,
        spec_areas_fold(st0, toks, areas, data, dims, i) is Err,
    ensures
        spec_areas_fold(st0, toks, areas, data, dims, j) == spec_areas_fold(
            st0,
            toks,
            areas,
            data,
            dims,
            i,
        ),
    decreases j - i,
{
    if i < j {
        lemma_areas_fold_err(st0, toks, areas, data, dims, i + 1, j);
    }
}

/// The whole token-level render pass of a loaded template against a data
/// context: every area in document order, then the remaining unchanged
/// tokens.
pub open spec fn spec_render_pipeline(t: DocxTemplate, data: serde_json::Value) -> Result<
    RenderState,
    RenderFailure,
> {
    let st0 = RenderState {
        tokens: Seq::empty(),
        bookmark: 0,
        seen: Seq::empty(),
        rels_id: max_id_upto(
            t.document_rels_tokens.deep_view(),
            t.document_rels_tokens@.len() as int,
        ),
        images: Seq::empty(),
    };
    match spec_areas_fold(
        st0,
        t.tokens.deep_view(),
        t.template_areas@,
        data,
        t.dimensions,
        t.template_areas@.len() as int,
    ) {
        Ok(st) => {
            if st.bookmark <= t.tokens.deep_view().len() {
                Ok(
                    RenderState {
                        tokens: st.tokens + t.tokens.deep_view().subrange(
                            st.bookmark,
                            t.tokens.deep_view().len() as int,
                        ),
                        ..st
                    },
                )
            } else {
                Ok(st)
            }
        },
        Err(f) => Err(f),
    }
}

/// The document markup text a render state serializes to.
pub open spec fn spec_output_doc(st: RenderState) -> Seq<char> {
    markup_text_of(emitted_upto(st.tokens, st.tokens.len() as int))
}

/// The relationships part text once the image queue is spliced in.
pub open spec fn spec_rels_part_text(t: DocxTemplate, st: RenderState) -> Seq<char> {
    markup_text_of(
        emitted_upto(
            spec_rels_with_images(t.document_rels_tokens.deep_view(), st.images),
            spec_rels_with_images(t.document_rels_tokens.deep_view(), st.images).len() as int,
        ),
    )
}

/// The content-type registry text once the PNG default is declared.
pub open spec fn spec_ct_part_text(t: DocxTemplate) -> Seq<char> {
    markup_text_of(
        emitted_upto(
            spec_with_png_default(t.content_types_tokens.deep_view()),
            spec_with_png_default(t.content_types_tokens.deep_view()).len() as int,
        ),
    )
}

/// The output package's entries for a finished render state: the source
/// entries in order, the document part replaced, the relationships part and
/// the content-type registry replaced exactly when images were produced, and
/// one media entry appended per image asset.
pub open spec fn spec_output_entries(t: DocxTemplate, st: RenderState) -> Seq<
    (Seq<char>, Seq<u8>),
> {
    let with_images = st.images.len() > 0;
    spec_rebuilt_entries(
        t.entries.deep_view(),
        utf8_bytes_of(spec_output_doc(st)),
        if with_images {
            utf8_bytes_of(spec_rels_part_text(t, st))
        } else {
            Seq::empty()
        },
        if with_images {
            utf8_bytes_of(spec_ct_part_text(t))
        } else {
            Seq::empty()
        },
        spec_media_entries(st.images),
        with_images,
    )
}

/// The output package bytes of a finished render state.
pub open spec fn spec_output_bytes(t: DocxTemplate, st: RenderState) -> Seq<u8> {
    zip_payload_of(spec_output_entries(t, st))
}

/// Whether the list holds the index.
fn contains_usize(v: &Vec<usize>, x: usize) -> (r: bool)
    ensures
        r == v@.contains(x),
{
    let mut i: usize = 0;
    while i < v.len()
        invariant
            i <= v.len(),
            forall|k: int| 0 <= k < i ==> v@[k] != x,
        decreases v.len() - i,
    {
        if v[i] == x {
            assert(v@[i as int] == x);
            return true;
        }
        i = i + 1;
    }
    assert(!v@.contains(x));
    false
}

impl DocxTemplate {
    /// Open a template package held in memory: read its entries, tokenize
    /// the three bookkeeping parts, read the page geometry, and resolve the
    /// template areas.
    pub fn from_bytes(bytes: &[u8]) -> (r: Result<Self, TextkitDocxError>)
        ensures
            r is Ok ==> r->Ok_0.wf(),
            r is Ok ==> {
                let t = r->Ok_0;
                &&& crate::ziparc::zip_entries_of(bytes@) is Some
                &&& t.entries.deep_view() == crate::ziparc::zip_entries_of(bytes@)->Some_0
                &&& entry_lookup(t.entries.deep_view(), "word/document.xml"@, 0) == Some(
                    utf8_bytes_of(t.document_xml@),
                )
                &&& entry_lookup(t.entries.deep_view(), "word/_rels/document.xml.rels"@, 0) == Some(
                    utf8_bytes_of(t.document_xml_rels@),
                )
                &&& entry_lookup(t.entries.deep_view(), "[Content_Types].xml"@, 0) == Some(
                    utf8_bytes_of(t.content_types@),
                )
            },
            crate::ziparc::zip_entries_of(bytes@) is None ==> r is Err && r->Err_0 is DocxZip,
            r is Err ==> (r->Err_0 is DocxZip || r->Err_0 is FailedReadXml || r->Err_0
                is Malformed),
            r is Ok ==> {
                let t = r->Ok_0;
                &&& xml_events_of(t.document_xml_rels@) is Some
                &&& t.document_rels_tokens.deep_view() == spec_tokens_of(
                    xml_events_of(t.document_xml_rels@)->Some_0,
                )
                &&& xml_events_of(t.content_types@) is Some
                &&& t.content_types_tokens.deep_view() == spec_tokens_of(
                    xml_events_of(t.content_types@)->Some_0,
                )
                &&& {
                    let ev = xml_events_of(t.document_xml@)->Some_0;
                    let st = crate::parse::dims_upto(ev, ev.len() as int);
                    &&& crate::parse::first_missing_dim(st) is None
                    &&& st.height == Some(t.dimensions.height)
                    &&& st.width == Some(t.dimensions.width)
                    &&& st.m_top == Some(t.dimensions.m_top)
                    &&& st.m_bottom == Some(t.dimensions.m_bottom)
                    &&& st.m_right == Some(t.dimensions.m_right)
                    &&& st.m_left == Some(t.dimensions.m_left)
                    &&& st.header == Some(t.dimensions.header)
                    &&& st.footer == Some(t.dimensions.footer)
                    &&& st.gutter == Some(t.dimensions.gutter)
                }
            },
    {
        let buf = vstd::slice::slice_to_vec(bytes);
        let mut archive = match zip_open(buf) {
            Some(z) => z,
            None => {
                return Err(TextkitDocxError::DocxZip("The package cannot be read".to_owned()));
            },
        };
        let ghost zm = crate::ziparc::zip_entries_of(bytes@)->Some_0;
        let n = zip_len(&archive);
        let mut entries: Vec<(String, Vec<u8>)> = Vec::new();
        let mut i: usize = 0;
        while i < n
            invariant
                i <= n,
                zip_entries(archive) == zm,
                n == zm.len(),
                entries@.len() == i,
                forall|k: int| 0 <= k < i ==> entries.deep_view()[k] == #[trigger] zm[k],
            decreases n - i,
        {
            match zip_entry_at(&mut archive, i) {
                Some(e) => {
                    let ghost emv = (e.0@, e.1@);
                    entries.push(e);
                    proof {
                        assert(entries.deep_view()[i as int] == emv);
                    }
                },
                None => {
                    return Err(
                        TextkitDocxError::DocxZip("A package entry cannot be read".to_owned()),
                    );
                },
            }
            i = i + 1;
        }
        proof {
            assert(entries.deep_view() =~= zm);
        }
        let document_xml = match find_entry_text(&entries, "word/document.xml") {
            Some(s) => s,
            None => {
                return Err(
                    TextkitDocxError::DocxZip("The package has no document part".to_owned()),
                );
            },
        };
        let document_xml_rels = match find_entry_text(&entries, "word/_rels/document.xml.rels") {
            Some(s) => s,
            None => {
                return Err(
                    TextkitDocxError::DocxZip("The package has no relationships part".to_owned()),
                );
            },
        };
        let content_types = match find_entry_text(&entries, "[Content_Types].xml") {
            Some(s) => s,
            None => {
                return Err(
                    TextkitDocxError::DocxZip(
                        "The package has no content-type registry".to_owned(),
                    ),
                );
            },
        };
        let tokens = match xml_to_token_vec(document_xml.as_str()) {
            Ok(t) => t,
            Err(e) => {
                return Err(e);
            },
        };
        let document_rels_tokens = match xml_to_token_vec(document_xml_rels.as_str()) {
            Ok(t) => t,
            Err(e) => {
                return Err(e);
            },
        };
        let content_types_tokens = match xml_to_token_vec(content_types.as_str()) {
            Ok(t) => t,
            Err(e) => {
                return Err(e);
            },
        };
        let dimensions = match parse_page_dimensions(document_xml.as_str()) {
            Ok(d) => d,
            Err(e) => {
                return Err(e);
            },
        };
        let template_areas = find_template_areas(&tokens, "p");
        Ok(
            DocxTemplate {
                entries,
                document_xml,
                document_xml_rels,
                content_types,
                tokens,
                document_rels_tokens,
                content_types_tokens,
                dimensions,
                template_areas,
            },
        )
    }

    /// Render the template against a data context into a fresh package.
    ///
    /// On success the bytes are exactly the archive of the source entries in
    /// order with the document part replaced by the serialized render of the
    /// token stream, the relationships part and the content-type registry
    /// replaced exactly when image assets were produced, and one media entry
    /// appended per asset.  The render pass itself is the spec-level fold
    /// [`spec_render_pipeline`]; its failures, the serializer's refusals and
    /// the bookkeeping-parts check are each reflected in the error.
    pub fn render(&self, data: &serde_json::Value) -> (r: Result<Vec<u8>, TextkitDocxError>)
        ensures
            match r {
                Ok(bytes) => {
                    &&& spec_render_pipeline(*self, *data) is Ok
                    &&& bytes@ == spec_output_bytes(
                        *self,
                        spec_render_pipeline(*self, *data)->Ok_0,
                    )
                    &&& crate::ziparc::zip_entries_of(bytes@) == Some(
                        spec_output_entries(*self, spec_render_pipeline(*self, *data)->Ok_0),
                    )
                    &&& serializable_upto(
                        spec_render_pipeline(*self, *data)->Ok_0.tokens,
                        spec_render_pipeline(*self, *data)->Ok_0.tokens.len() as int,
                    )
                    &&& (self.template_areas@.len() == 0 ==> spec_render_pipeline(
                        *self,
                        *data,
                    )->Ok_0.images.len() == 0 && spec_output_doc(
                        spec_render_pipeline(*self, *data)->Ok_0,
                    ) == markup_text_of(
                        emitted_upto(self.tokens.deep_view(), self.tokens@.len() as int),
                    ))
                },
                Err(e) => {
                    let pipe = spec_render_pipeline(*self, *data);
                    ||| (pipe == Err::<RenderState, RenderFailure>(RenderFailure::BadBounds) && e
                        is Malformed && e->Malformed_0@
                        == "A template area has inconsistent bounds"@)
                    ||| (pipe == Err::<RenderState, RenderFailure>(RenderFailure::NoPrintableWidth)
                        && e is Malformed && e->Malformed_0@
                        == "The page leaves no printable width"@)
                    ||| (pipe == Err::<RenderState, RenderFailure>(RenderFailure::BadInput) && e
                        is BadInputData)
                    ||| (pipe is Ok && e is FailedWriteXml)
                    ||| (pipe is Ok && e is DocxZip)
                },
            },
            (spec_render_pipeline(*self, *data) is Ok && spec_render_pipeline(
                *self,
                *data,
            )->Ok_0.images.len() > 0 && serializable_upto(
                spec_render_pipeline(*self, *data)->Ok_0.tokens,
                spec_render_pipeline(*self, *data)->Ok_0.tokens.len() as int,
            ) && (self.document_rels_tokens@.len() < 2 || self.content_types_tokens@.len() < 2))
                ==> (r is Err && r->Err_0 is DocxZip && r->Err_0->DocxZip_0@
                == "The package bookkeeping parts are too short"@),
    {
        let ghost st0g = RenderState {
            tokens: Seq::<TokenModel>::empty(),
            bookmark: 0,
            seen: Seq::<usize>::empty(),
            rels_id: max_id_upto(
                self.document_rels_tokens.deep_view(),
                self.document_rels_tokens@.len() as int,
            ),
            images: Seq::<(Seq<char>, ImageModel)>::empty(),
        };
        let mut result: Vec<Token> = Vec::new();
        let mut images: Vec<(String, ImageFileContents)> = Vec::new();
        let mut bookmark_index: usize = 0;
        let mut seen_starts: Vec<usize> = Vec::new();
        let mut latest_rels_id: u64 = get_last_id_number_for_document_xml_rels(
            &self.document_rels_tokens,
        );
        proof {
            assert(result.deep_view() =~= st0g.tokens);
            assert(images.deep_view() =~= st0g.images);
            assert(seen_starts@ =~= st0g.seen);
        }
        let mut a: usize = 0;
        while a < self.template_areas.len()
            invariant
                a <= self.template_areas@.len(),
                st0g == (RenderState {
                    tokens: Seq::<TokenModel>::empty(),
                    bookmark: 0,
                    seen: Seq::<usize>::empty(),
                    rels_id: max_id_upto(
                        self.document_rels_tokens.deep_view(),
                        self.document_rels_tokens@.len() as int,
                    ),
                    images: Seq::<(Seq<char>, ImageModel)>::empty(),
                }),
                self.tokens.deep_view().len() == self.tokens@.len(),
                bookmark_index <= self.tokens@.len(),
                spec_areas_fold(
                    st0g,
                    self.tokens.deep_view(),
                    self.template_areas@,
                    *data,
                    self.dimensions,
                    a as int,
                ) == Ok::<RenderState, RenderFailure>(
                    RenderState {
                        tokens: result.deep_view(),
                        bookmark: bookmark_index as int,
                        seen: seen_starts@,
                        rels_id: latest_rels_id,
                        images: images.deep_view(),
                    },
                ),
            decreases self.template_areas@.len() - a,
        {
            let ghost stpre = RenderState {
                tokens: result.deep_view(),
                bookmark: bookmark_index as int,
                seen: seen_starts@,
                rels_id: latest_rels_id,
                images: images.deep_view(),
            };
            let ghost am = self.template_areas@[a as int];
            let area = self.template_areas[a];
            match (area.context_start_index, area.context_end_index) {
                (Some(start), Some(end)) => {
                    let index = area.token_index;
                    if !contains_usize(&seen_starts, start) {
                        seen_starts.push(start);
                        let ghost st1 = RenderState { seen: stpre.seen.push(start), ..stpre };
                        if !(start <= index && index <= end && end < self.tokens.len()
                            && bookmark_index <= start) {
                            proof {
                                assert(spec_area_step(
                                    stpre,
                                    self.tokens.deep_view(),
                                    am,
                                    *data,
                                    self.dimensions,
                                ) == Err::<RenderState, RenderFailure>(RenderFailure::BadBounds));
                                assert(spec_areas_fold(
                                    st0g,
                                    self.tokens.deep_view(),
                                    self.template_areas@,
                                    *data,
                                    self.dimensions,
                                    a as int + 1,
                                ) is Err);
                                lemma_areas_fold_err(
                                    st0g,
                                    self.tokens.deep_view(),
                                    self.template_areas@,
                                    *data,
                                    self.dimensions,
                                    a as int + 1,
                                    self.template_areas@.len() as int,
                                );
                                assert(spec_render_pipeline(*self, *data)
                                    == Err::<RenderState, RenderFailure>(
                                    RenderFailure::BadBounds,
                                ));
                            }
                            return Err(
                                TextkitDocxError::Malformed(
                                    "A template area has inconsistent bounds".to_owned(),
                                ),
                            );
                        }
                        let subvector_index = index - start;
                        let template_tokens = clone_token_range(&self.tokens, start, end + 1);
                        proof {
                            assert(template_tokens@.len() == template_tokens.deep_view().len());
                            assert(template_tokens@.len() == end + 1 - start);
                        }
                        let mut prequel = clone_token_range(&self.tokens, bookmark_index, start);
                        result.append(&mut prequel);
                        bookmark_index = end + 1;
                        let ghost st2 = RenderState {
                            tokens: st1.tokens + self.tokens.deep_view().subrange(
                                st1.bookmark,
                                start as int,
                            ),
                            bookmark: end as int + 1,
                            ..st1
                        };
                        proof {
                            assert(result.deep_view() =~= st2.tokens);
                        }
                        let text_opt = match &template_tokens[subvector_index].token_text {
                            Some(t) => Some(t.clone()),
                            None => None,
                        };
                        match text_opt {
                            Some(template_text) => {
                                let ghost textm = template_tokens.deep_view()[
                                    subvector_index as int].token_text->Some_0;
                                proof {
                                    assert(template_text@ == textm);
                                }
                                let tt = template_tokens[subvector_index].token_type;
                                if tt == TokenType::Template {
                                    let mut toks = render_and_paste_tokens(
                                        &template_tokens,
                                        template_text.as_str(),
                                        subvector_index,
                                        data,
                                    );
                                    result.append(&mut toks);
                                    proof {
                                        assert(result.deep_view() =~= st2.tokens
                                            + spec_rendered_area(
                                            template_tokens.deep_view(),
                                            subvector_index as int,
                                            eval_of(textm, *data),
                                        ));
                                        assert(spec_area_step(
                                            stpre,
                                            self.tokens.deep_view(),
                                            am,
                                            *data,
                                            self.dimensions,
                                        ) == Ok::<RenderState, RenderFailure>(
                                            RenderState {
                                                tokens: result.deep_view(),
                                                bookmark: bookmark_index as int,
                                                seen: seen_starts@,
                                                rels_id: latest_rels_id,
                                                images: images.deep_view(),
                                            },
                                        ));
                                    }
                                } else if tt == TokenType::ComplexTemplate {
                                    match self.render_complex_area(
                                        &template_tokens,
                                        template_text.as_str(),
                                        subvector_index,
                                        data,
                                        &mut result,
                                        &mut images,
                                        &mut latest_rels_id,
                                    ) {
                                        Ok(_) => {
                                            proof {
                                                assert(spec_area_step(
                                                    stpre,
                                                    self.tokens.deep_view(),
                                                    am,
                                                    *data,
                                                    self.dimensions,
                                                ) == Ok::<RenderState, RenderFailure>(
                                                    RenderState {
                                                        tokens: result.deep_view(),
                                                        bookmark: bookmark_index as int,
                                                        seen: seen_starts@,
                                                        rels_id: latest_rels_id,
                                                        images: images.deep_view(),
                                                    },
                                                ));
                                            }
                                        },
                                        Err(e) => {
                                            proof {
                                                assert(spec_area_step(
                                                    stpre,
                                                    self.tokens.deep_view(),
                                                    am,
                                                    *data,
                                                    self.dimensions,
                                                ) is Err);
                                                assert(spec_areas_fold(
                                                    st0g,
                                                    self.tokens.deep_view(),
                                                    self.template_areas@,
                                                    *data,
                                                    self.dimensions,
                                                    a as int + 1,
                                                ) is Err);
                                                lemma_areas_fold_err(
                                                    st0g,
                                                    self.tokens.deep_view(),
                                                    self.template_areas@,
                                                    *data,
                                                    self.dimensions,
                                                    a as int + 1,
                                                    self.template_areas@.len() as int,
                                                );
                                            }
                                            return Err(e);
                                        },
                                    }
                                } else {
                                    proof {
                                        assert(spec_area_step(
                                            stpre,
                                            self.tokens.deep_view(),
                                            am,
                                            *data,
                                            self.dimensions,
                                        ) == Ok::<RenderState, RenderFailure>(st2));
                                    }
                                }
                            },
                            None => {
                                proof {
                                    assert(spec_area_step(
                                        stpre,
                                        self.tokens.deep_view(),
                                        am,
                                        *data,
                                        self.dimensions,
                                    ) == Ok::<RenderState, RenderFailure>(st2));
                                }
                            },
                        }
                    } else {
                        proof {
                            assert(spec_area_step(
                                stpre,
                                self.tokens.deep_view(),
                                am,
                                *data,
                                self.dimensions,
                            ) == Ok::<RenderState, RenderFailure>(stpre));
                        }
                    }
                },
                _ => {
                    proof {
                        assert(spec_area_step(
                            stpre,
                            self.tokens.deep_view(),
                            am,
                            *data,
                            self.dimensions,
                        ) == Ok::<RenderState, RenderFailure>(stpre));
                    }
                },
            }
            a = a + 1;
        }
        let ghost stloop = RenderState {
            tokens: result.deep_view(),
            bookmark: bookmark_index as int,
            seen: seen_starts@,
            rels_id: latest_rels_id,
            images: images.deep_view(),
        };
        let mut sequel = clone_token_range(&self.tokens, bookmark_index, self.tokens.len());
        result.append(&mut sequel);
        let ghost stfin = spec_render_pipeline(*self, *data)->Ok_0;
        proof {
            assert(spec_render_pipeline(*self, *data) is Ok);
            assert(stfin.tokens =~= result.deep_view());
            assert(stfin.images == images.deep_view());
            if self.template_areas@.len() == 0 {
                assert(stfin.tokens =~= self.tokens.deep_view());
            }
        }

        let document_xml_contents = match write_token_vector_to_string(&result) {
            Ok(s) => s,
            Err(e) => {
                return Err(e);
            },
        };
        proof {
            assert(document_xml_contents@ == spec_output_doc(stfin));
        }
        let with_images = images.len() > 0;
        let mut rels_bytes: Vec<u8> = Vec::new();
        let mut ct_bytes: Vec<u8> = Vec::new();
        if with_images {
            if self.document_rels_tokens.len() < 2 || self.content_types_tokens.len() < 2 {
                return Err(
                    TextkitDocxError::DocxZip(
                        "The package bookkeeping parts are too short".to_owned(),
                    ),
                );
            }
            let new_rels_tokens = insert_images_in_document_xml_rels(
                &self.document_rels_tokens,
                &images,
            );
            let rels_text = match write_token_vector_to_string(&new_rels_tokens) {
                Ok(s) => s,
                Err(e) => {
                    return Err(e);
                },
            };
            rels_bytes = string_to_bytes(rels_text.as_str());
            proof {
                assert(rels_bytes@ == utf8_bytes_of(spec_rels_part_text(*self, stfin)));
            }
            let new_ct_tokens = insert_png_content_type(&self.content_types_tokens);
            let ct_text = match write_token_vector_to_string(&new_ct_tokens) {
                Ok(s) => s,
                Err(e) => {
                    return Err(e);
                },
            };
            ct_bytes = string_to_bytes(ct_text.as_str());
            proof {
                assert(ct_bytes@ == utf8_bytes_of(spec_ct_part_text(*self)));
            }
        }
        let doc_bytes = string_to_bytes(document_xml_contents.as_str());

        let ghost src = self.entries.deep_view();
        let ghost target = Seq::new(
            src.len(),
            |i: int|
                (
                    src[i].0,
                    spec_replaced_payload(
                        src[i].0,
                        src[i].1,
                        doc_bytes@,
                        rels_bytes@,
                        ct_bytes@,
                        with_images,
                    ),
                ),
        );
        let mut writer = new_zip_writer();
        proof {
            assert(zip_written(writer) =~= target.take(0));
        }
        let mut i: usize = 0;
        while i < self.entries.len()
            invariant
                spec_render_pipeline(*self, *data) == Ok::<RenderState, RenderFailure>(stfin),
                with_images == (stfin.images.len() > 0),
                stfin.images.len() > 0 ==> self.document_rels_tokens@.len() >= 2
                    && self.content_types_tokens@.len() >= 2,
                i <= self.entries@.len(),
                src == self.entries.deep_view(),
                src.len() == self.entries@.len(),
                target.len() == src.len(),
                forall|k: int|
                    0 <= k < src.len() ==> #[trigger] target[k] == (
                        src[k].0,
                        spec_replaced_payload(
                            src[k].0,
                            src[k].1,
                            doc_bytes@,
                            rels_bytes@,
                            ct_bytes@,
                            with_images,
                        ),
                    ),
                zip_written(writer) =~= target.take(i as int),
            decreases self.entries@.len() - i,
        {
            let name = &self.entries[i].0;
            let payload: &Vec<u8> = if str_eq(name.as_str(), "word/document.xml") {
                &doc_bytes
            } else if with_images && str_eq(name.as_str(), "word/_rels/document.xml.rels") {
                &rels_bytes
            } else if with_images && str_eq(name.as_str(), "[Content_Types].xml") {
                &ct_bytes
            } else {
                &self.entries[i].1
            };
            let ok = zip_add_entry(&mut writer, name.as_str(), payload.as_slice());
            if !ok {
                return Err(
                    TextkitDocxError::DocxZip("The new package cannot be assembled".to_owned()),
                );
            }
            proof {
                assert(src[i as int] == (self.entries@[i as int].0@, self.entries@[i as int].1@));
                assert(zip_written(writer) =~= target.take(i as int + 1));
            }
            i = i + 1;
        }
        proof {
            assert(zip_written(writer) =~= target);
        }
        let ghost base = zip_written(writer);
        let ghost im = images.deep_view();
        let ghost media = spec_media_entries(im);
        let mut k: usize = 0;
        while k < images.len()
            invariant
                spec_render_pipeline(*self, *data) == Ok::<RenderState, RenderFailure>(stfin),
                with_images == (stfin.images.len() > 0),
                stfin.images.len() > 0 ==> self.document_rels_tokens@.len() >= 2
                    && self.content_types_tokens@.len() >= 2,
                k <= images@.len(),
                im == images.deep_view(),
                im.len() == images@.len(),
                media == spec_media_entries(im),
                media.len() == im.len(),
                zip_written(writer) =~= base + media.take(k as int),
            decreases images@.len() - k,
        {
            proof {
                reveal_strlit("word/media/");
            }
            let mut media_name = "word/media/".to_owned();
            media_name.append(images[k].1.file_contents.filename.as_str());
            let ok = zip_add_entry(
                &mut writer,
                media_name.as_str(),
                images[k].1.file_contents.payload.as_slice(),
            );
            if !ok {
                return Err(
                    TextkitDocxError::DocxZip("The new package cannot be assembled".to_owned()),
                );
            }
            proof {
                assert(im[k as int] == images@[k as int].deep_view());
                assert(media[k as int] == (
                    "word/media/"@ + im[k as int].1.file_contents.filename,
                    im[k as int].1.file_contents.payload,
                ));
                assert(zip_written(writer) =~= base + media.take(k as int + 1));
            }
            k = k + 1;
        }
        let bytes = match zip_finish(writer) {
            Some(b) => b,
            None => {
                return Err(
                    TextkitDocxError::DocxZip("The new package cannot be assembled".to_owned()),
                );
            },
        };
        proof {
            assert(media.take(im.len() as int) =~= media);
            assert(zip_written(writer) =~= spec_rebuilt_entries(
                src,
                doc_bytes@,
                rels_bytes@,
                ct_bytes@,
                media,
                with_images,
            ));
            assert(doc_bytes@ == utf8_bytes_of(spec_output_doc(stfin)));
            assert(zip_written(writer) =~~= spec_output_entries(*self, stfin));
            assert(bytes@ == spec_output_bytes(*self, stfin));
            assert(crate::ziparc::zip_entries_of(bytes@) == Some(
                spec_output_entries(*self, stfin),
            ));
        }
        Ok(bytes)
    }

    /// Render one complex template area: literal text between placeholders
    /// goes through the plain path, each helper placeholder dispatches by
    /// name, and unrecognized helper names produce nothing.
    fn render_complex_area(
        &self,
        template_tokens: &Vec<Token>,
        template_text: &str,
        subvector_index: usize,
        data: &serde_json::Value,
        result: &mut Vec<Token>,
        images: &mut Vec<(String, ImageFileContents)>,
        latest_rels_id: &mut u64,
    ) -> (r: Result<(), TextkitDocxError>)
        requires
            subvector_index < template_tokens@.len(),
        ensures
            ({
                let hs0 = HelperState {
                    tokens: old(result).deep_view(),
                    rels_id: *old(latest_rels_id),
                    images: old(images).deep_view(),
                };
                let out = spec_complex_area(
                    hs0,
                    template_tokens.deep_view(),
                    subvector_index as int,
                    template_text@,
                    *data,
                    self.dimensions,
                );
                match r {
                    Ok(_) => {
                        &&& out is Ok
                        &&& final (result).deep_view() == out->Ok_0.tokens
                        &&& *final (latest_rels_id) == out->Ok_0.rels_id
                        &&& final (images).deep_view() == out->Ok_0.images
                    },
                    Err(e) => {
                        &&& out is Err
                        &&& !(out->Err_0 is BadBounds)
                        &&& (out->Err_0 is BadInput ==> e is BadInputData)
                        &&& (out->Err_0 is NoPrintableWidth ==> e is Malformed && e->Malformed_0@
                            == "The page leaves no printable width"@)
                    },
                }
            }),
    {
        let ghost hs0 = HelperState {
            tokens: result.deep_view(),
            rels_id: *latest_rels_id,
            images: images.deep_view(),
        };
        let ghost aream = template_tokens.deep_view();
        let ghost textm = template_text@;
        let text_chars = chars_of(template_text);
        let placeholders = parse_template_placeholders(template_text);
        let ghost phsm = spec_placeholders(textm);
        let mut index: usize = 0;
        let mut p: usize = 0;
        while p < placeholders.len()
            invariant
                p <= placeholders@.len(),
                hs0 == (HelperState {
                    tokens: old(result).deep_view(),
                    rels_id: *old(latest_rels_id),
                    images: old(images).deep_view(),
                }),
                aream == template_tokens.deep_view(),
                textm == template_text@,
                text_chars@ == textm,
                phsm == spec_placeholders(textm),
                placeholders.deep_view() == phsm,
                phsm.len() == placeholders@.len(),
                subvector_index < template_tokens@.len(),
                index <= text_chars@.len(),
                spec_placeholders_fold(
                    hs0,
                    aream,
                    subvector_index as int,
                    textm,
                    phsm,
                    p as int,
                    *data,
                    self.dimensions,
                ) == Ok::<(HelperState, int), RenderFailure>(
                    (
                        HelperState {
                            tokens: result.deep_view(),
                            rels_id: *latest_rels_id,
                            images: images.deep_view(),
                        },
                        index as int,
                    ),
                ),
            decreases placeholders@.len() - p,
        {
            let ghost hspre = HelperState {
                tokens: result.deep_view(),
                rels_id: *latest_rels_id,
                images: images.deep_view(),
            };
            let ghost cursor0 = index as int;
            let ghost phm = phsm[p as int];
            proof {
                assert(phm == placeholders@[p as int].deep_view());
            }
            let has_helper = match &placeholders[p].helper_name {
                Some(_) => true,
                None => false,
            };
            if has_helper {
                let start_position = placeholders[p].start_position;
                let end_position = placeholders[p].end_position;
                if index <= start_position && start_position <= end_position && end_position
                    <= text_chars.len() {
                    if index != start_position {
                        let pre = sub_chars(&text_chars, index, start_position);
                        let pre_s = chars_to_string(&pre);
                        let mut toks = render_and_paste_tokens(
                            template_tokens,
                            pre_s.as_str(),
                            subvector_index,
                            data,
                        );
                        result.append(&mut toks);
                        proof {
                            assert(result.deep_view() =~= hspre.tokens + spec_rendered_area(
                                aream,
                                subvector_index as int,
                                eval_of(textm.subrange(cursor0, phm.start_position), *data),
                            ));
                        }
                    }
                    index = end_position;
                    let ghost hs1 = if cursor0 != phm.start_position {
                        HelperState {
                            tokens: hspre.tokens + spec_rendered_area(
                                aream,
                                subvector_index as int,
                                eval_of(textm.subrange(cursor0, phm.start_position), *data),
                            ),
                            ..hspre
                        }
                    } else {
                        hspre
                    };
                    proof {
                        assert(result.deep_view() == hs1.tokens);
                    }
                    let helper = match &placeholders[p].helper_name {
                        Some(h) => h.clone(),
                        None => String::new(),
                    };
                    proof {
                        assert(helper@ == phm.helper_name->Some_0);
                    }
                    if str_eq(helper.as_str(), "table") {
                        match json_get(data, placeholders[p].expression.as_str()) {
                            Some(table_value) => {
                                match decode_table(table_value) {
                                    Ok(table) => {
                                        if !page_dimensions_usable(&self.dimensions) {
                                            proof {
                                                assert(spec_helper_dispatch(
                                                    hs1,
                                                    helper@,
                                                    phm.expression,
                                                    *data,
                                                    self.dimensions,
                                                ) == Err::<HelperState, RenderFailure>(
                                                    RenderFailure::NoPrintableWidth,
                                                ));
                                                assert(spec_placeholders_fold(
                                                    hs0,
                                                    aream,
                                                    subvector_index as int,
                                                    textm,
                                                    phsm,
                                                    p as int + 1,
                                                    *data,
                                                    self.dimensions,
                                                ) is Err);
                                                lemma_placeholders_fold_err(
                                                    hs0,
                                                    aream,
                                                    subvector_index as int,
                                                    textm,
                                                    phsm,
                                                    p as int + 1,
                                                    phsm.len() as int,
                                                    *data,
                                                    self.dimensions,
                                                );
                                            }
                                            return Err(
                                                TextkitDocxError::Malformed(
                                                    "The page leaves no printable width".to_owned(),
                                                ),
                                            );
                                        }
                                        let mut toks = datakit_table_to_tokens(
                                            &table,
                                            &self.dimensions,
                                        );
                                        result.append(&mut toks);
                                        proof {
                                            assert(result.deep_view() =~= hs1.tokens
                                                + spec_table_tokens(
                                                table.columns.deep_view(),
                                                self.dimensions,
                                            ));
                                        }
                                    },
                                    Err(e) => {
                                        proof {
                                            assert(spec_helper_dispatch(
                                                hs1,
                                                helper@,
                                                phm.expression,
                                                *data,
                                                self.dimensions,
                                            ) == Err::<HelperState, RenderFailure>(
                                                RenderFailure::BadInput,
                                            ));
                                            assert(spec_placeholders_fold(
                                                hs0,
                                                aream,
                                                subvector_index as int,
                                                textm,
                                                phsm,
                                                p as int + 1,
                                                *data,
                                                self.dimensions,
                                            ) is Err);
                                            lemma_placeholders_fold_err(
                                                hs0,
                                                aream,
                                                subvector_index as int,
                                                textm,
                                                phsm,
                                                p as int + 1,
                                                phsm.len() as int,
                                                *data,
                                                self.dimensions,
                                            );
                                        }
                                        return Err(e);
                                    },
                                }
                            },
                            None => {},
                        }
                    } else if str_eq(helper.as_str(), "jupyter") {
                        match json_get(data, placeholders[p].expression.as_str()) {
                            Some(nb_value) => {
                                match decode_notebook(nb_value) {
                                    Ok(notebook) => {
                                        let mut toks = jupyter_nb_to_tokens(
                                            &notebook,
                                            latest_rels_id,
                                            images,
                                        );
                                        result.append(&mut toks);
                                        proof {
                                            let f = spec_jupyter_render(
                                                notebook.deep_view(),
                                                hs1.rels_id,
                                                hs1.images,
                                            );
                                            assert(result.deep_view() =~= hs1.tokens + f.tokens);
                                        }
                                    },
                                    Err(e) => {
                                        proof {
                                            assert(spec_helper_dispatch(
                                                hs1,
                                                helper@,
                                                phm.expression,
                                                *data,
                                                self.dimensions,
                                            ) == Err::<HelperState, RenderFailure>(
                                                RenderFailure::BadInput,
                                            ));
                                            assert(spec_placeholders_fold(
                                                hs0,
                                                aream,
                                                subvector_index as int,
                                                textm,
                                                phsm,
                                                p as int + 1,
                                                *data,
                                                self.dimensions,
                                            ) is Err);
                                            lemma_placeholders_fold_err(
                                                hs0,
                                                aream,
                                                subvector_index as int,
                                                textm,
                                                phsm,
                                                p as int + 1,
                                                phsm.len() as int,
                                                *data,
                                                self.dimensions,
                                            );
                                        }
                                        return Err(e);
                                    },
                                }
                            },
                            None => {},
                        }
                    } else if str_eq(helper.as_str(), "markdown") {
                        match json_get(data, placeholders[p].expression.as_str()) {
                            Some(md_value) => {
                                match json_as_str(md_value) {
                                    Some(source_text) => {
                                        let mut toks = markdown_to_tokens(source_text.as_str());
                                        result.append(&mut toks);
                                        proof {
                                            assert(result.deep_view() =~= hs1.tokens
                                                + spec_markdown_tokens(source_text@));
                                        }
                                    },
                                    None => {
                                        proof {
                                            assert(spec_helper_dispatch(
                                                hs1,
                                                helper@,
                                                phm.expression,
                                                *data,
                                                self.dimensions,
                                            ) == Err::<HelperState, RenderFailure>(
                                                RenderFailure::BadInput,
                                            ));
                                            assert(spec_placeholders_fold(
                                                hs0,
                                                aream,
                                                subvector_index as int,
                                                textm,
                                                phsm,
                                                p as int + 1,
                                                *data,
                                                self.dimensions,
                                            ) is Err);
                                            lemma_placeholders_fold_err(
                                                hs0,
                                                aream,
                                                subvector_index as int,
                                                textm,
                                                phsm,
                                                p as int + 1,
                                                phsm.len() as int,
                                                *data,
                                                self.dimensions,
                                            );
                                        }
                                        return Err(
                                            TextkitDocxError::BadInputData(
                                                "The markdown expression is not text".to_owned(),
                                            ),
                                        );
                                    },
                                }
                            },
                            None => {},
                        }
                    }
                    proof {
                        assert(spec_placeholder_step(
                            hspre,
                            cursor0,
                            aream,
                            subvector_index as int,
                            textm,
                            phm,
                            *data,
                            self.dimensions,
                        ) == Ok::<(HelperState, int), RenderFailure>(
                            (
                                HelperState {
                                    tokens: result.deep_view(),
                                    rels_id: *latest_rels_id,
                                    images: images.deep_view(),
                                },
                                index as int,
                            ),
                        ));
                    }
                } else {
                    proof {
                        assert(spec_placeholder_step(
                            hspre,
                            cursor0,
                            aream,
                            subvector_index as int,
                            textm,
                            phm,
                            *data,
                            self.dimensions,
                        ) == Ok::<(HelperState, int), RenderFailure>((hspre, cursor0)));
                    }
                }
            } else {
                proof {
                    assert(spec_placeholder_step(
                        hspre,
                        cursor0,
                        aream,
                        subvector_index as int,
                        textm,
                        phm,
                        *data,
                        self.dimensions,
                    ) == Ok::<(HelperState, int), RenderFailure>((hspre, cursor0)));
                }
            }
            p = p + 1;
        }
        if index < text_chars.len() {
            let seq_chars = sub_chars(&text_chars, index, text_chars.len());
            let seq_s = chars_to_string(&seq_chars);
            let mut toks = render_and_paste_tokens(
                template_tokens,
                seq_s.as_str(),
                subvector_index,
                data,
            );
            result.append(&mut toks);
            proof {
                assert(spec_complex_area(
                    hs0,
                    aream,
                    subvector_index as int,
                    textm,
                    *data,
                    self.dimensions,
                )->Ok_0.tokens =~= result.deep_view());
            }
        }
        Ok(())
    }
}

/// Whether the page geometry leaves printable width for a table.
fn page_dimensions_usable(d: &PageDimensions) -> (r: bool)
    ensures
        r == d.wf(),
{
    d.width > 0 && d.m_left >= 0 && d.m_right >= 0 && (d.m_left as i64) + (d.m_right as i64) <= (
    d.width as i64)
}

/// The bytes of the first entry carrying the name, scanning from `i`.
pub open spec fn entry_lookup(entries: Seq<(Seq<char>, Seq<u8>)>, name: Seq<char>, i: int) -> Option<
    Seq<u8>,
>
    decreases entries.len() - i,
{
    if i < 0 || i >= entries.len() {
        None
    } else if entries[i].0 == name {
        Some(entries[i].1)
    } else {
        entry_lookup(entries, name, i + 1)
    }
}

/// The text of the named entry: present exactly when the entry exists and
/// its bytes are a text's encoding.
fn find_entry_text(entries: &Vec<(String, Vec<u8>)>, name: &str) -> (r: Option<String>)
    ensures
        match r {
            Some(s) => entry_lookup(entries.deep_view(), name@, 0) == Some(utf8_bytes_of(s@)),
            None => entry_lookup(entries.deep_view(), name@, 0) is None || !(exists|t: Seq<char>|
                #[trigger] utf8_bytes_of(t) == entry_lookup(entries.deep_view(), name@, 0)->Some_0),
        },
{
    let ghost em = entries.deep_view();
    let mut i: usize = 0;
    while i < entries.len()
        invariant
            i <= entries.len(),
            em == entries.deep_view(),
            em.len() == entries@.len(),
            entry_lookup(em, name@, 0) == entry_lookup(em, name@, i as int),
        decreases entries@.len() - i,
    {
        proof {
            assert(em[i as int] == (entries@[i as int].0@, entries@[i as int].1@));
        }
        if str_eq(entries[i].0.as_str(), name) {
            return bytes_to_string(entries[i].1.as_slice());
        }
        i = i + 1;
    }
    None
}

} // verus!
