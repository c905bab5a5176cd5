//! The notebook helper: Markdown cells render through the Markdown path,
//! code-cell text outputs become monospaced paragraphs, and PNG outputs are
//! probed, queued as image assets and anchored inline.

use crate::builders::{emu_of, image_paragraph_tokens, monospace_paragraph_tokens,
    spec_image_paragraph, spec_monospace_paragraph_tokens};
use crate::errors::TextkitDocxError;
use crate::jsondata::{json_as_array, json_as_str, json_as_u64, json_get, json_items_of,
    json_member_of, json_text_of, json_uint_of};
use crate::markdown::{markdown_to_tokens, spec_markdown_tokens};
use crate::model::{Token, TokenModel};
use crate::render::{make_rel_id, FileContents, FileContentsModel, ImageFileContents, ImageModel};
use crate::strutil::dec_of;
use crate::strutil::u64_to_string;
use vstd::prelude::*;
use vstd::string::StringExecFns;

verus! {

/// What kind of content one notebook cell holds.
#[derive(Debug, Clone, Copy, PartialEq, Eq, Structural)]
pub enum JupyterCellType {
    Markdown,
    Code,
    Raw,
}

/// One output of a code cell, reduced to the parts rendering reads.
#[derive(Debug)]
pub struct JupyterCellOutput {
    /// The plain-text payload, line by line, when the output carries one.
    pub text_plain: Option<Vec<String>>,
    /// The PNG payload, base64-encoded, when the output carries one.
    pub image_png: Option<String>,
    pub execution_count: Option<u64>,
    pub output_type: String,
}

/// One notebook cell.
#[derive(Debug)]
pub struct JupyterCell {
    pub cell_type: JupyterCellType,
    pub source: Vec<String>,
    pub outputs: Option<Vec<JupyterCellOutput>>,
    pub execution_count: Option<u64>,
}

/// A structured notebook value.
#[derive(Debug)]
pub struct JupyterNotebook {
    pub cells: Vec<JupyterCell>,
    pub nbformat: u64,
    pub nbformat_minor: u64,
}

/// Mathematical picture of a [`JupyterCellOutput`].
#[verifier::ext_equal]
pub struct OutputModel {
    pub text_plain: Option<Seq<Seq<char>>>,
    pub image_png: Option<Seq<char>>,
    pub execution_count: Option<u64>,
    pub output_type: Seq<char>,
}

/// Mathematical picture of a [`JupyterCell`].
#[verifier::ext_equal]
pub struct CellModel {
    pub cell_type: JupyterCellType,
    pub source: Seq<Seq<char>>,
    pub outputs: Option<Seq<OutputModel>>,
    pub execution_count: Option<u64>,
}

/// Mathematical picture of a [`JupyterNotebook`].
#[verifier::ext_equal]
pub struct NotebookModel {
    pub cells: Seq<CellModel>,
    pub nbformat: u64,
    pub nbformat_minor: u64,
}

impl DeepView for JupyterCellOutput {
    type V = OutputModel;

    open spec fn deep_view(&self) -> OutputModel {
        OutputModel {
            text_plain: self.text_plain.deep_view(),
            image_png: self.image_png.deep_view(),
            execution_count: self.execution_count,
            output_type: self.output_type@,
        }
    }
}

impl DeepView for JupyterCell {
    type V = CellModel;

    open spec fn deep_view(&self) -> CellModel {
        CellModel {
            cell_type: self.cell_type,
            source: self.source.deep_view(),
            outputs: self.outputs.deep_view(),
            execution_count: self.execution_count,
        }
    }
}

impl DeepView for JupyterNotebook {
    type V = NotebookModel;

    open spec fn deep_view(&self) -> NotebookModel {
        NotebookModel {
            cells: self.cells.deep_view(),
            nbformat: self.nbformat,
            nbformat_minor: self.nbformat_minor,
        }
    }
}

/// What the base64 decoder yields for the trimmed text, or nothing when the
/// text is not valid base64; the result depends on the text alone.
pub uninterp spec fn b64_decoded_of(s: Seq<char>) -> Option<Seq<u8>>;

/// Relies on str::trim and base64::decode: the standard-alphabet decoding of
/// the text with surrounding whitespace removed.
#[verifier::external_body]
pub(crate) fn base64_decode_trimmed(s: &str) -> (r: Option<Vec<u8>>)
    ensures
        r.deep_view() == b64_decoded_of(s@),
{
    base64::decode(s.trim()).ok()
}

/// The pixel width and height of a PNG byte stream, or nothing when the
/// bytes are no readable PNG; the result depends on the bytes alone.
pub uninterp spec fn png_size_of(b: Seq<u8>) -> Option<(u32, u32)>;

/// Relies on png::Decoder::read_info: the probed pixel dimensions.
#[verifier::external_body]
pub(crate) fn get_png_dimensions(png_payload: &[u8]) -> (r: Option<(u32, u32)>)
    ensures
        r == png_size_of(png_payload@),
{
    let decoder = png::Decoder::new(std::io::Cursor::new(png_payload));
    match decoder.read_info() {
        Ok((info, _)) => Some((info.width, info.height)),
        Err(_) => None,
    }
}

/// The first `i` source lines joined with newlines.
pub open spec fn spec_join_lines(lines: Seq<Seq<char>>, i: int) -> Seq<char>
    decreases i,
{
    if i <= 0 {
        Seq::empty()
    } else if i == 1 {
        lines[0]
    } else {
        spec_join_lines(lines, i - 1) + seq!['\n'] + lines[i - 1]
    }
}

/// Join source lines with newlines.
pub fn join_lines(lines: &Vec<String>) -> (r: String)
    ensures
        r@ == spec_join_lines(lines.deep_view(), lines@.len() as int),
{
    let ghost lm = lines.deep_view();
    let mut r = String::new();
    let mut i: usize = 0;
    while i < lines.len()
        invariant
            i <= lines.len(),
            lm == lines.deep_view(),
            lm.len() == lines@.len(),
            r@ == spec_join_lines(lm, i as int),
        decreases lines.len() - i,
    {
        if i > 0 {
            r.append("\n");
            proof {
                reveal_strlit("\n");
                assert("\n"@ =~= seq!['\n']);
            }
        }
        r.append(lines[i].as_str());
        proof {
            assert(lm[i as int] == lines@[i as int]@);
            if i == 0 {
                assert(r@ =~= spec_join_lines(lm, 1));
            }
        }
        i = i + 1;
    }
    r
}

/// The monospaced paragraphs of the first `i` output lines.
pub open spec fn spec_mono_lines_upto(lines: Seq<Seq<char>>, i: int) -> Seq<TokenModel>
    decreases i,
{
    if i <= 0 {
        Seq::empty()
    } else {
        spec_mono_lines_upto(lines, i - 1) + spec_monospace_paragraph_tokens(lines[i - 1])
    }
}

/// The running state of notebook rendering: the tokens so far, the last
/// relationship-id suffix used, the image assets queued, and the next figure
/// number.
#[verifier::ext_equal]
pub struct JupyterFold {
    pub tokens: Seq<TokenModel>,
    pub rels_id: u64,
    pub images: Seq<(Seq<char>, ImageModel)>,
    pub counter: int,
}

/// The name of a queued figure file.
pub open spec fn spec_figure_name(counter: int) -> Seq<char> {
    "figure-"@ + dec_of(counter as nat) + ".png"@
}

/// Whether a probed image can be sized and numbered.
pub open spec fn image_fits(st: JupyterFold, w: u32, h: u32) -> bool {
    &&& emu_of(w) <= u32::MAX as int
    &&& emu_of(h) <= u32::MAX as int
    &&& st.rels_id < u64::MAX
    &&& 0 <= st.counter
    &&& st.counter + 10000 <= usize::MAX
}

/// One PNG output: decoded, probed, queued under a fresh relationship id and
/// anchored inline; an output that cannot be decoded, probed, sized or
/// numbered is passed over.
pub open spec fn spec_image_step(st: JupyterFold, png_b64: Seq<char>) -> JupyterFold {
    match b64_decoded_of(png_b64) {
        None => st,
        Some(payload) => {
            match png_size_of(payload) {
                None => st,
                Some(dims) => {
                    if image_fits(st, dims.0, dims.1) {
                        let id = (st.rels_id + 1) as u64;
                        let rel = "rId"@ + dec_of(id as nat);
                        JupyterFold {
                            tokens: st.tokens + spec_image_paragraph(
                                rel,
                                dims.0,
                                dims.1,
                                st.counter,
                            ),
                            rels_id: id,
                            images: st.images.push(
                                (
                                    rel,
                                    ImageModel {
                                        file_contents: FileContentsModel {
                                            filename: spec_figure_name(st.counter),
                                            payload,
                                        },
                                        width: dims.0,
                                        height: dims.1,
                                    },
                                ),
                            ),
                            counter: st.counter + 1,
                        }
                    } else {
                        st
                    }
                },
            }
        },
    }
}

/// One code-cell output: its text lines as monospaced paragraphs, then its
/// PNG payload as an inline image.
pub open spec fn spec_output_step(st: JupyterFold, o: OutputModel) -> JupyterFold {
    let st1 = match o.text_plain {
        Some(lines) => JupyterFold {
            tokens: st.tokens + spec_mono_lines_upto(lines, lines.len() as int),
            ..st
        },
        None => st,
    };
    match o.image_png {
        Some(b64) => spec_image_step(st1, b64),
        None => st1,
    }
}

/// The state after the first `i` outputs of one code cell.
pub open spec fn spec_outputs_upto(st: JupyterFold, outs: Seq<OutputModel>, i: int) -> JupyterFold
    decreases i,
{
    if i <= 0 {
        st
    } else {
        spec_output_step(spec_outputs_upto(st, outs, i - 1), outs[i - 1])
    }
}

/// One cell: Markdown renders through the Markdown path, code renders its
/// outputs, raw cells are passed over.
pub open spec fn spec_cell_step(st: JupyterFold, c: CellModel) -> JupyterFold {
    match c.cell_type {
        JupyterCellType::Markdown => JupyterFold {
            tokens: st.tokens + spec_markdown_tokens(
                spec_join_lines(c.source, c.source.len() as int),
            ),
            ..st
        },
        JupyterCellType::Code => {
            match c.outputs {
                Some(outs) => spec_outputs_upto(st, outs, outs.len() as int),
                None => st,
            }
        },
        JupyterCellType::Raw => st,
    }
}

/// The state after the first `i` cells.
pub open spec fn spec_cells_upto(st: JupyterFold, cells: Seq<CellModel>, i: int) -> JupyterFold
    decreases i,
{
    if i <= 0 {
        st
    } else {
        spec_cell_step(spec_cells_upto(st, cells, i - 1), cells[i - 1])
    }
}

/// The whole notebook rendered from a starting relationship id and image
/// queue, with figures numbered from one.
pub open spec fn spec_jupyter_render(
    nb: NotebookModel,
    rels0: u64,
    images0: Seq<(Seq<char>, ImageModel)>,
) -> JupyterFold {
    spec_cells_upto(
        JupyterFold { tokens: Seq::empty(), rels_id: rels0, images: images0, counter: 1 },
        nb.cells,
        nb.cells.len() as int,
    )
}

/// Build the name of a queued figure file.
fn figure_file_name(counter: usize) -> (r: String)
    ensures
        r@ == spec_figure_name(counter as int),
{
    proof {
        reveal_strlit("figure-");
        reveal_strlit(".png");
    }
    let mut s = "figure-".to_owned();
    let n = u64_to_string(counter as u64);
    s.append(n.as_str());
    s.append(".png");
    s
}

/// Whether the pixel measure can be expressed in drawing coordinates.
fn emu_fits(pixels: u32) -> (r: bool)
    ensures
        r == (emu_of(pixels) <= u32::MAX as int),
{
    (pixels as u64) * 914400 / 72 + 2540 <= u32::MAX as u64
}

/// Render a notebook into a token stream.  Each image asset found is given
/// the next relationship id and queued for the package rebuilder.
pub fn jupyter_nb_to_tokens(
    ipynb: &JupyterNotebook,
    start_rels_id: &mut u64,
    images: &mut Vec<(String, ImageFileContents)>,
) -> (r: Vec<Token>)
    ensures
        ({
            let f = spec_jupyter_render(
                ipynb.deep_view(),
                *old(start_rels_id),
                old(images).deep_view(),
            );
            &&& r.deep_view() == f.tokens
            &&& *final (start_rels_id) == f.rels_id
            &&& final (images).deep_view() == f.images
        }),
{
    let ghost nb = ipynb.deep_view();
    let ghost st0 = JupyterFold {
        tokens: Seq::empty(),
        rels_id: *start_rels_id,
        images: old(images).deep_view(),
        counter: 1,
    };
    let mut result: Vec<Token> = Vec::new();
    let mut image_counter: usize = 1;
    proof {
        assert(result.deep_view() =~= Seq::<TokenModel>::empty());
    }
    let mut i: usize = 0;
    while i < ipynb.cells.len()
        invariant
            i <= ipynb.cells.len(),
            nb == ipynb.deep_view(),
            nb.cells.len() == ipynb.cells@.len(),
            ({
                let f = spec_cells_upto(st0, nb.cells, i as int);
                &&& result.deep_view() == f.tokens
                &&& *start_rels_id == f.rels_id
                &&& images.deep_view() == f.images
                &&& image_counter as int == f.counter
            }),
        decreases ipynb.cells.len() - i,
    {
        let ghost fprev = spec_cells_upto(st0, nb.cells, i as int);
        let cell = &ipynb.cells[i];
        proof {
            assert(nb.cells[i as int] == ipynb.cells@[i as int].deep_view());
        }
        match cell.cell_type {
            JupyterCellType::Markdown => {
                let source_s = join_lines(&cell.source);
                let mut toks = markdown_to_tokens(source_s.as_str());
                result.append(&mut toks);
            },
            JupyterCellType::Code => {
                match &cell.outputs {
                    Some(outputs) => {
                        let ghost outs = outputs.deep_view();
                        let mut j: usize = 0;
                        while j < outputs.len()
                            invariant
                                j <= outputs.len(),
                                outs == outputs.deep_view(),
                                outs.len() == outputs@.len(),
                                ({
                                    let f = spec_outputs_upto(fprev, outs, j as int);
                                    &&& result.deep_view() == f.tokens
                                    &&& *start_rels_id == f.rels_id
                                    &&& images.deep_view() == f.images
                                    &&& image_counter as int == f.counter
                                }),
                            decreases outputs.len() - j,
                        {
                            let ghost fo = spec_outputs_upto(fprev, outs, j as int);
                            let output = &outputs[j];
                            proof {
                                assert(outs[j as int] == outputs@[j as int].deep_view());
                            }
                            match &output.text_plain {
                                Some(text_lines) => {
                                    let ghost lm = text_lines.deep_view();
                                    proof {
                                        assert(result.deep_view() =~= fo.tokens
                                            + spec_mono_lines_upto(lm, 0));
                                    }
                                    let mut k: usize = 0;
                                    while k < text_lines.len()
                                        invariant
                                            k <= text_lines.len(),
                                            lm == text_lines.deep_view(),
                                            lm.len() == text_lines@.len(),
                                            result.deep_view() =~= fo.tokens
                                                + spec_mono_lines_upto(lm, k as int),
                                        decreases text_lines.len() - k,
                                    {
                                        let ghost rold = result.deep_view();
                                        let mut toks = monospace_paragraph_tokens(
                                            text_lines[k].as_str(),
                                        );
                                        result.append(&mut toks);
                                        proof {
                                            assert(lm[k as int] == text_lines@[k as int]@);
                                            assert(result.deep_view() =~= rold
                                                + spec_monospace_paragraph_tokens(lm[k as int]));
                                            assert(result.deep_view() =~= fo.tokens
                                                + spec_mono_lines_upto(lm, k as int + 1));
                                        }
                                        k = k + 1;
                                    }
                                },
                                None => {},
                            }
                            let ghost fmid = spec_output_step_text(fo, outs[j as int]);
                            let ghost fpost = spec_output_step(fo, outs[j as int]);
                            proof {
                                assert(result.deep_view() =~= fmid.tokens);
                            }
                            match &output.image_png {
                                Some(b64) => {
                                    match base64_decode_trimmed(b64.as_str()) {
                                        Some(payload) => {
                                            match get_png_dimensions(payload.as_slice()) {
                                                Some(dims) => {
                                                    let fits = emu_fits(dims.0) && emu_fits(dims.1)
                                                        && *start_rels_id < u64::MAX
                                                        && image_counter <= usize::MAX - 10000;
                                                    proof {
                                                        assert(fits == image_fits(
                                                            fmid,
                                                            dims.0,
                                                            dims.1,
                                                        ));
                                                    }
                                                    if fits {
                                                        let ghost rmid = result.deep_view();
                                                        let ghost imid = images.deep_view();
                                                        let ghost pm = payload@;
                                                        *start_rels_id = *start_rels_id + 1;
                                                        let figure_relationship_id = make_rel_id(
                                                            *start_rels_id,
                                                        );
                                                        let filename = figure_file_name(
                                                            image_counter,
                                                        );
                                                        let rel_copy =
                                                            figure_relationship_id.clone();
                                                        let mut toks = image_paragraph_tokens(
                                                            figure_relationship_id.as_str(),
                                                            dims.0,
                                                            dims.1,
                                                            image_counter,
                                                        );
                                                        images.push(
                                                            (
                                                                rel_copy,
                                                                ImageFileContents {
                                                                    file_contents: FileContents {
                                                                        filename,
                                                                        payload,
                                                                    },
                                                                    width: dims.0,
                                                                    height: dims.1,
                                                                },
                                                            ),
                                                        );
                                                        result.append(&mut toks);
                                                        image_counter = image_counter + 1;
                                                        proof {
                                                            let rel = "rId"@ + dec_of(
                                                                (fmid.rels_id + 1) as nat,
                                                            );
                                                            assert(result.deep_view() =~= rmid
                                                                + spec_image_paragraph(
                                                                rel,
                                                                dims.0,
                                                                dims.1,
                                                                fmid.counter,
                                                            ));
                                                            assert(images.deep_view()
                                                                =~~= imid.push(
                                                                (
                                                                    rel,
                                                                    ImageModel {
                                                                        file_contents:
                                                                            FileContentsModel {
                                                                            filename:
                                                                                spec_figure_name(
                                                                                fmid.counter,
                                                                            ),
                                                                            payload: pm,
                                                                        },
                                                                        width: dims.0,
                                                                        height: dims.1,
                                                                    },
                                                                ),
                                                            ));
                                                            assert(outs[j as int].image_png
                                                                == Some(b64@));
                                                            assert(b64_decoded_of(b64@) == Some(
                                                                pm,
                                                            ));
                                                            assert(png_size_of(pm) == Some(dims));
                                                            assert(image_fits(
                                                                fmid,
                                                                dims.0,
                                                                dims.1,
                                                            ));
                                                            assert(fpost == spec_image_step(
                                                                spec_output_step_text(
                                                                    fo,
                                                                    outs[j as int],
                                                                ),
                                                                b64@,
                                                            ));
                                                            assert(fpost.tokens == fmid.tokens
                                                                + spec_image_paragraph(
                                                                rel,
                                                                dims.0,
                                                                dims.1,
                                                                fmid.counter,
                                                            ));
                                                            assert(result.deep_view()
                                                                =~~= fpost.tokens);
                                                            assert(images.deep_view()
                                                                =~~= fpost.images);
                                                        }
                                                    } else {
                                                        proof {
                                                            let pm2 = payload@;
                                                            assert(outs[j as int].image_png
                                                                == Some(b64@));
                                                            assert(b64_decoded_of(b64@) == Some(
                                                                pm2,
                                                            ));
                                                            assert(png_size_of(pm2) == Some(
                                                                dims,
                                                            ));
                                                            assert(!image_fits(
                                                                fmid,
                                                                dims.0,
                                                                dims.1,
                                                            ));
                                                            assert(spec_image_step(fmid, b64@)
                                                                == fmid);
                                                            assert(fpost == spec_image_step(
                                                                spec_output_step_text(
                                                                    fo,
                                                                    outs[j as int],
                                                                ),
                                                                b64@,
                                                            ));
                                                            assert(fpost == fmid);
                                                        }
                                                    }
                                                },
                                                None => {
                                                    proof {
                                                        assert(outs[j as int].image_png == Some(
                                                            b64@,
                                                        ));
                                                        assert(b64_decoded_of(b64@) == Some(
                                                            payload@,
                                                        ));
                                                        assert(png_size_of(payload@) is None);
                                                        assert(spec_image_step(fmid, b64@)
                                                            == fmid);
                                                        assert(fpost == spec_image_step(
                                                            spec_output_step_text(
                                                                fo,
                                                                outs[j as int],
                                                            ),
                                                            b64@,
                                                        ));
                                                        assert(fpost == fmid);
                                                    }
                                                },
                                            }
                                        },
                                        None => {
                                            proof {
                                                assert(outs[j as int].image_png == Some(b64@));
                                                assert(b64_decoded_of(b64@) is None);
                                                assert(spec_image_step(fmid, b64@) == fmid);
                                                assert(fpost == spec_image_step(
                                                    spec_output_step_text(fo, outs[j as int]),
                                                    b64@,
                                                ));
                                                assert(fpost == fmid);
                                            }
                                        },
                                    }
                                },
                                None => {
                                    proof {
                                        assert(outs[j as int].image_png is None);
                                        assert(spec_output_step(fo, outs[j as int])
                                            == spec_output_step_text(fo, outs[j as int]));
                                        assert(fpost == fmid);
                                    }
                                },
                            }
                            proof {
                                let f = spec_outputs_upto(fprev, outs, j as int + 1);
                                assert(f == spec_output_step(fo, outs[j as int]));
                                assert(result.deep_view() =~~= f.tokens);
                                assert(images.deep_view() =~~= f.images);
                            }
                            j = j + 1;
                        }
                    },
                    None => {},
                }
            },
            JupyterCellType::Raw => {},
        }
        proof {
            let f = spec_cells_upto(st0, nb.cells, i as int + 1);
            assert(f == spec_cell_step(fprev, nb.cells[i as int]));
            assert(result.deep_view() =~~= f.tokens);
            assert(images.deep_view() =~~= f.images);
        }
        i = i + 1;
    }
    result
}

/// The state after only the text part of one output.
pub open spec fn spec_output_step_text(st: JupyterFold, o: OutputModel) -> JupyterFold {
    match o.text_plain {
        Some(lines) => JupyterFold {
            tokens: st.tokens + spec_mono_lines_upto(lines, lines.len() as int),
            ..st
        },
        None => st,
    }
}

/// Read a structured notebook out of the generic structured value.
/// The text lines read off an array value, or nothing when it is no array
/// of strings: the first `i` items.
pub open spec fn spec_decode_lines_upto(items: Seq<serde_json::Value>, i: int) -> Option<
    Seq<Seq<char>>,
>
    decreases i,
{
    if i <= 0 {
        Some(Seq::empty())
    } else {
        match (spec_decode_lines_upto(items, i - 1), json_text_of(items[i - 1])) {
            (Some(acc), Some(line)) => Some(acc.push(line)),
            _ => None,
        }
    }
}

proof fn lemma_decode_lines_none(items: Seq<serde_json::Value>, i: int, j: int)
    requires
        0 <= i <= j,
        spec_decode_lines_upto(items, i) is None,
    ensures
        spec_decode_lines_upto(items, j) is None,
    decreases j - i,
{
    if i < j {
        lemma_decode_lines_none(items, i + 1, j);
    }
}

/// The text lines read off a value, or nothing when it is no array of
/// strings.
pub open spec fn spec_decode_string_list(v: serde_json::Value) -> Option<Seq<Seq<char>>> {
    match json_items_of(v) {
        Some(items) => spec_decode_lines_upto(items, items.len() as int),
        None => None,
    }
}

/// One code-cell output read off the generic structured value, or nothing
/// when a required piece is missing or ill-shaped.
pub open spec fn spec_decode_output(v: serde_json::Value) -> Option<OutputModel> {
    if json_member_of(v, "output_type"@) is None {
        None
    } else if json_text_of(json_member_of(v, "output_type"@)->Some_0) is None {
        None
    } else if json_member_of(v, "data"@) is None {
        None
    } else {
        let data = json_member_of(v, "data"@)->Some_0;
        let tp = json_member_of(data, "text/plain"@);
        let ip = json_member_of(data, "image/png"@);
        if tp is Some && spec_decode_string_list(tp->Some_0) is None {
            None
        } else if ip is Some && json_text_of(ip->Some_0) is None {
            None
        } else {
            Some(
                OutputModel {
                    text_plain: match tp {
                        Some(t) => Some(spec_decode_string_list(t)->Some_0),
                        None => None,
                    },
                    image_png: match ip {
                        Some(p) => Some(json_text_of(p)->Some_0),
                        None => None,
                    },
                    execution_count: match json_member_of(v, "execution_count"@) {
                        Some(n) => json_uint_of(n),
                        None => None,
                    },
                    output_type: json_text_of(json_member_of(v, "output_type"@)->Some_0)->Some_0,
                },
            )
        }
    }
}

/// The first `i` outputs read off the output values; one failure fails all.
pub open spec fn spec_decode_outputs_upto(items: Seq<serde_json::Value>, i: int) -> Option<
    Seq<OutputModel>,
>
    decreases i,
{
    if i <= 0 {
        Some(Seq::empty())
    } else {
        match (spec_decode_outputs_upto(items, i - 1), spec_decode_output(items[i - 1])) {
            (Some(acc), Some(o)) => Some(acc.push(o)),
            _ => None,
        }
    }
}

proof fn lemma_decode_outputs_none(items: Seq<serde_json::Value>, i: int, j: int)
    requires
        0 <= i <= j,
        spec_decode_outputs_upto(items, i) is None,
    ensures
        spec_decode_outputs_upto(items, j) is None,
    decreases j - i,
{
    if i < j {
        lemma_decode_outputs_none(items, i + 1, j);
    }
}

/// The cell kind a type name denotes, if any.
pub open spec fn spec_cell_type_of(t: Seq<char>) -> Option<JupyterCellType> {
    if t == "markdown"@ {
        Some(JupyterCellType::Markdown)
    } else if t == "code"@ {
        Some(JupyterCellType::Code)
    } else if t == "raw"@ {
        Some(JupyterCellType::Raw)
    } else {
        None
    }
}

/// One notebook cell read off the generic structured value, or nothing when
/// a required piece is missing or ill-shaped.
pub open spec fn spec_decode_jcell(v: serde_json::Value) -> Option<CellModel> {
    if json_member_of(v, "cell_type"@) is None {
        None
    } else if json_text_of(json_member_of(v, "cell_type"@)->Some_0) is None {
        None
    } else if spec_cell_type_of(json_text_of(json_member_of(v, "cell_type"@)->Some_0)->Some_0)
        is None {
        None
    } else if json_member_of(v, "source"@) is None {
        None
    } else if spec_decode_string_list(json_member_of(v, "source"@)->Some_0) is None {
        None
    } else {
        let outs = json_member_of(v, "outputs"@);
        if outs is Some && json_items_of(outs->Some_0) is None {
            None
        } else if outs is Some && spec_decode_outputs_upto(
            json_items_of(outs->Some_0)->Some_0,
            json_items_of(outs->Some_0)->Some_0.len() as int,
        ) is None {
            None
        } else {
            Some(
                CellModel {
                    cell_type: spec_cell_type_of(
                        json_text_of(json_member_of(v, "cell_type"@)->Some_0)->Some_0,
                    )->Some_0,
                    source: spec_decode_string_list(json_member_of(v, "source"@)->Some_0)->Some_0,
                    outputs: match outs {
                        Some(o) => Some(
                            spec_decode_outputs_upto(
                                json_items_of(o)->Some_0,
                                json_items_of(o)->Some_0.len() as int,
                            )->Some_0,
                        ),
                        None => None,
                    },
                    execution_count: match json_member_of(v, "execution_count"@) {
                        Some(n) => json_uint_of(n),
                        None => None,
                    },
                },
            )
        }
    }
}

/// The first `i` cells read off the cell values; one failure fails all.
pub open spec fn spec_decode_cells_upto(items: Seq<serde_json::Value>, i: int) -> Option<
    Seq<CellModel>,
>
    decreases i,
{
    if i <= 0 {
        Some(Seq::empty())
    } else {
        match (spec_decode_cells_upto(items, i - 1), spec_decode_jcell(items[i - 1])) {
            (Some(acc), Some(c)) => Some(acc.push(c)),
            _ => None,
        }
    }
}

proof fn lemma_decode_cells_none(items: Seq<serde_json::Value>, i: int, j: int)
    requires
        0 <= i <= j,
        spec_decode_cells_upto(items, i) is None,
    ensures
        spec_decode_cells_upto(items, j) is None,
    decreases j - i,
{
    if i < j {
        lemma_decode_cells_none(items, i + 1, j);
    }
}

/// The structured notebook read off the generic structured value, or nothing
/// when a required piece is missing or ill-shaped.
pub open spec fn spec_decode_notebook(v: serde_json::Value) -> Option<NotebookModel> {
    if json_member_of(v, "cells"@) is None {
        None
    } else if json_items_of(json_member_of(v, "cells"@)->Some_0) is None {
        None
    } else if spec_decode_cells_upto(
        json_items_of(json_member_of(v, "cells"@)->Some_0)->Some_0,
        json_items_of(json_member_of(v, "cells"@)->Some_0)->Some_0.len() as int,
    ) is None {
        None
    } else if json_member_of(v, "nbformat"@) is None {
        None
    } else if json_uint_of(json_member_of(v, "nbformat"@)->Some_0) is None {
        None
    } else if json_member_of(v, "nbformat_minor"@) is None {
        None
    } else if json_uint_of(json_member_of(v, "nbformat_minor"@)->Some_0) is None {
        None
    } else {
        Some(
            NotebookModel {
                cells: spec_decode_cells_upto(
                    json_items_of(json_member_of(v, "cells"@)->Some_0)->Some_0,
                    json_items_of(json_member_of(v, "cells"@)->Some_0)->Some_0.len() as int,
                )->Some_0,
                nbformat: json_uint_of(json_member_of(v, "nbformat"@)->Some_0)->Some_0,
                nbformat_minor: json_uint_of(json_member_of(v, "nbformat_minor"@)->Some_0)->Some_0,
            },
        )
    }
}

/// Read a structured notebook out of the generic structured value.
pub fn decode_notebook(v: &serde_json::Value) -> (r: Result<JupyterNotebook, TextkitDocxError>)
    ensures
        match r {
            Ok(nb) => spec_decode_notebook(*v) == Some(nb.deep_view()),
            Err(e) => spec_decode_notebook(*v) is None && e is BadInputData,
        },
{
    let cells_value = match json_get(v, "cells") {
        Some(c) => c,
        None => {
            return Err(TextkitDocxError::BadInputData("The notebook has no cells".to_owned()));
        },
    };
    let cell_values = match json_as_array(cells_value) {
        Some(a) => a,
        None => {
            return Err(
                TextkitDocxError::BadInputData("The notebook cells are not a sequence".to_owned()),
            );
        },
    };
    let ghost items = json_items_of(*cells_value)->Some_0;
    let mut cells: Vec<JupyterCell> = Vec::new();
    let mut i: usize = 0;
    while i < cell_values.len()
        invariant
            i <= cell_values.len(),
            json_member_of(*v, "cells"@) == Some(*cells_value),
            json_items_of(*cells_value) == Some(items),
            items.len() == cell_values@.len(),
            forall|k: int|
                0 <= k < cell_values@.len() ==> *(#[trigger] cell_values@[k]) == items[k],
            cells@.len() == i,
            spec_decode_cells_upto(items, i as int) == Some(cells.deep_view()),
        decreases cell_values.len() - i,
    {
        match decode_cell(cell_values[i]) {
            Ok(c) => {
                let ghost cm = c.deep_view();
                cells.push(c);
                proof {
                    assert(cells.deep_view()[i as int] == cm);
                    assert(cells.deep_view() =~= spec_decode_cells_upto(
                        items,
                        i as int,
                    )->Some_0.push(cm));
                }
            },
            Err(e) => {
                proof {
                    assert(spec_decode_cells_upto(items, i as int + 1) is None);
                    lemma_decode_cells_none(items, i as int + 1, items.len() as int);
                }
                return Err(e);
            },
        }
        i = i + 1;
    }
    let nbformat = match json_get(v, "nbformat") {
        Some(n) => {
            match json_as_u64(n) {
                Some(x) => x,
                None => {
                    return Err(
                        TextkitDocxError::BadInputData(
                            "The notebook format version is not a number".to_owned(),
                        ),
                    );
                },
            }
        },
        None => {
            return Err(
                TextkitDocxError::BadInputData("The notebook has no format version".to_owned()),
            );
        },
    };
    let nbformat_minor = match json_get(v, "nbformat_minor") {
        Some(n) => {
            match json_as_u64(n) {
                Some(x) => x,
                None => {
                    return Err(
                        TextkitDocxError::BadInputData(
                            "The notebook minor version is not a number".to_owned(),
                        ),
                    );
                },
            }
        },
        None => {
            return Err(
                TextkitDocxError::BadInputData("The notebook has no minor version".to_owned()),
            );
        },
    };
    let nb = JupyterNotebook { cells, nbformat, nbformat_minor };
    proof {
        assert(nb.deep_view() =~~= spec_decode_notebook(*v)->Some_0);
    }
    Ok(nb)
}

/// Read a list of text lines out of an array value.
fn decode_string_list(v: &serde_json::Value) -> (r: Result<Vec<String>, TextkitDocxError>)
    ensures
        match r {
            Ok(lines) => spec_decode_string_list(*v) == Some(lines.deep_view()),
            Err(e) => spec_decode_string_list(*v) is None && e is BadInputData,
        },
{
    let items = match json_as_array(v) {
        Some(a) => a,
        None => {
            return Err(
                TextkitDocxError::BadInputData("Expected a sequence of text lines".to_owned()),
            );
        },
    };
    let ghost im = json_items_of(*v)->Some_0;
    let mut out: Vec<String> = Vec::new();
    let mut i: usize = 0;
    while i < items.len()
        invariant
            i <= items.len(),
            json_items_of(*v) == Some(im),
            im.len() == items@.len(),
            forall|k: int| 0 <= k < items@.len() ==> *(#[trigger] items@[k]) == im[k],
            out@.len() == i,
            spec_decode_lines_upto(im, i as int) == Some(out.deep_view()),
        decreases items.len() - i,
    {
        match json_as_str(items[i]) {
            Some(s) => {
                let ghost sm = s@;
                out.push(s);
                proof {
                    assert(out.deep_view()[i as int] == sm);
                    assert(out.deep_view() =~= spec_decode_lines_upto(
                        im,
                        i as int,
                    )->Some_0.push(sm));
                }
            },
            None => {
                proof {
                    assert(spec_decode_lines_upto(im, i as int + 1) is None);
                    lemma_decode_lines_none(im, i as int + 1, im.len() as int);
                }
                return Err(
                    TextkitDocxError::BadInputData("Expected a line of text".to_owned()),
                );
            },
        }
        i = i + 1;
    }
    Ok(out)
}

/// Read one cell out of the generic structured value.
fn decode_cell(v: &serde_json::Value) -> (r: Result<JupyterCell, TextkitDocxError>)
    ensures
        match r {
            Ok(c) => spec_decode_jcell(*v) == Some(c.deep_view()),
            Err(e) => spec_decode_jcell(*v) is None && e is BadInputData,
        },
{
    let type_value = match json_get(v, "cell_type") {
        Some(t) => t,
        None => {
            return Err(TextkitDocxError::BadInputData("A cell has no type".to_owned()));
        },
    };
    let type_text = match json_as_str(type_value) {
        Some(s) => s,
        None => {
            return Err(TextkitDocxError::BadInputData("A cell's type is not text".to_owned()));
        },
    };
    let cell_type = if crate::grammar::str_eq(type_text.as_str(), "markdown") {
        JupyterCellType::Markdown
    } else if crate::grammar::str_eq(type_text.as_str(), "code") {
        JupyterCellType::Code
    } else if crate::grammar::str_eq(type_text.as_str(), "raw") {
        JupyterCellType::Raw
    } else {
        proof {
            assert(spec_cell_type_of(type_text@) is None);
        }
        return Err(TextkitDocxError::BadInputData("A cell's type is unknown".to_owned()));
    };
    proof {
        assert(spec_cell_type_of(type_text@) == Some(cell_type));
    }
    let source = match json_get(v, "source") {
        Some(s) => {
            match decode_string_list(s) {
                Ok(lines) => lines,
                Err(e) => {
                    return Err(e);
                },
            }
        },
        None => {
            return Err(TextkitDocxError::BadInputData("A cell has no source".to_owned()));
        },
    };
    let outputs = match json_get(v, "outputs") {
        Some(outs_value) => {
            match json_as_array(outs_value) {
                Some(out_values) => {
                    let ghost oim = json_items_of(*outs_value)->Some_0;
                    let mut outs: Vec<JupyterCellOutput> = Vec::new();
                    let mut i: usize = 0;
                    while i < out_values.len()
                        invariant
                            i <= out_values.len(),
                            json_member_of(*v, "outputs"@) == Some(*outs_value),
                            json_items_of(*outs_value) == Some(oim),
                            oim.len() == out_values@.len(),
                            forall|k: int|
                                0 <= k < out_values@.len() ==> *(#[trigger] out_values@[k])
                                    == oim[k],
                            outs@.len() == i,
                            spec_decode_outputs_upto(oim, i as int) == Some(outs.deep_view()),
                        decreases out_values.len() - i,
                    {
                        match decode_output(out_values[i]) {
                            Ok(o) => {
                                let ghost om = o.deep_view();
                                outs.push(o);
                                proof {
                                    assert(outs.deep_view()[i as int] == om);
                                    assert(outs.deep_view() =~= spec_decode_outputs_upto(
                                        oim,
                                        i as int,
                                    )->Some_0.push(om));
                                }
                            },
                            Err(e) => {
                                proof {
                                    assert(spec_decode_outputs_upto(oim, i as int + 1) is None);
                                    lemma_decode_outputs_none(
                                        oim,
                                        i as int + 1,
                                        oim.len() as int,
                                    );
                                }
                                return Err(e);
                            },
                        }
                        i = i + 1;
                    }
                    Some(outs)
                },
                None => {
                    return Err(
                        TextkitDocxError::BadInputData(
                            "A cell's outputs are not a sequence".to_owned(),
                        ),
                    );
                },
            }
        },
        None => None,
    };
    let execution_count = match json_get(v, "execution_count") {
        Some(n) => json_as_u64(n),
        None => None,
    };
    let c = JupyterCell { cell_type, source, outputs, execution_count };
    proof {
        assert(c.deep_view() =~~= spec_decode_jcell(*v)->Some_0);
    }
    Ok(c)
}

/// Read one code-cell output out of the generic structured value.
fn decode_output(v: &serde_json::Value) -> (r: Result<JupyterCellOutput, TextkitDocxError>)
    ensures
        match r {
            Ok(o) => spec_decode_output(*v) == Some(o.deep_view()),
            Err(e) => spec_decode_output(*v) is None && e is BadInputData,
        },
{
    let output_type = match json_get(v, "output_type") {
        Some(t) => {
            match json_as_str(t) {
                Some(s) => s,
                None => {
                    return Err(
                        TextkitDocxError::BadInputData("An output's type is not text".to_owned()),
                    );
                },
            }
        },
        None => {
            return Err(TextkitDocxError::BadInputData("An output has no type".to_owned()));
        },
    };
    let data = match json_get(v, "data") {
        Some(d) => d,
        None => {
            return Err(TextkitDocxError::BadInputData("An output has no data".to_owned()));
        },
    };
    let text_plain = match json_get(data, "text/plain") {
        Some(t) => {
            match decode_string_list(t) {
                Ok(lines) => Some(lines),
                Err(e) => {
                    return Err(e);
                },
            }
        },
        None => None,
    };
    let image_png = match json_get(data, "image/png") {
        Some(p) => {
            match json_as_str(p) {
                Some(s) => Some(s),
                None => {
                    return Err(
                        TextkitDocxError::BadInputData(
                            "An output's image payload is not text".to_owned(),
                        ),
                    );
                },
            }
        },
        None => None,
    };
    let execution_count = match json_get(v, "execution_count") {
        Some(n) => json_as_u64(n),
        None => None,
    };
    let o = JupyterCellOutput { text_plain, image_png, execution_count, output_type };
    proof {
        assert(o.deep_view() =~~= spec_decode_output(*v)->Some_0);
    }
    Ok(o)
}

} // verus!
