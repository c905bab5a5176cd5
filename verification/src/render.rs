//! The substitution engine: pasting rendered text back into a template area,
//! serializing tokens to markup text, and the package bookkeeping that image
//! assets need.

use crate::builders::{m_chars, m_end, m_plain_attr, m_start, owned_attribute, start_tag_event,
    end_tag_event};
use crate::errors::TextkitDocxError;
use crate::grammar::str_eq;
use crate::jsondata::{eval_of, eval_template};
use crate::model::{clone_tokens, EventModel, MarkupAttributeModel, MarkupEvent, Token, TokenModel,
    TokenType};
use crate::grammar::chars_of;
use crate::strutil::{chars_to_string, spec_split_by_empty_line, split_string_by_empty_line,
    spec_parse_u64, parse_u64, u64_to_string, dec_of, sub_chars};
use crate::xmlio::{markup_text_of, new_markup_writer, write_markup_event, writer_accepts, writer_doc};
use vstd::prelude::*;
use vstd::string::StringExecFns;

verus! {

/// One file to add to the package.
#[derive(Debug)]
pub struct FileContents {
    pub filename: String,
    pub payload: Vec<u8>,
}

/// One image asset: its file plus its pixel size.
#[derive(Debug)]
pub struct ImageFileContents {
    pub file_contents: FileContents,
    pub width: u32,
    pub height: u32,
}

/// Mathematical picture of a [`FileContents`].
#[verifier::ext_equal]
pub struct FileContentsModel {
    pub filename: Seq<char>,
    pub payload: Seq<u8>,
}

/// Mathematical picture of an [`ImageFileContents`].
#[verifier::ext_equal]
pub struct ImageModel {
    pub file_contents: FileContentsModel,
    pub width: u32,
    pub height: u32,
}

impl DeepView for FileContents {
    type V = FileContentsModel;

    open spec fn deep_view(&self) -> FileContentsModel {
        FileContentsModel { filename: self.filename@, payload: self.payload@ }
    }
}

impl DeepView for ImageFileContents {
    type V = ImageModel;

    open spec fn deep_view(&self) -> ImageModel {
        ImageModel { file_contents: self.file_contents.deep_view(), width: self.width, height: self.height }
    }
}

/// The template area with its classified token replaced by plain text.
pub open spec fn spec_paste_chunk(tm: Seq<TokenModel>, idx: int, chunk: Seq<char>) -> Seq<
    TokenModel,
> {
    tm.update(idx, m_chars(chunk))
}

/// The first `i` chunks, each pasted into its own copy of the area.
pub open spec fn spec_paste_upto(tm: Seq<TokenModel>, idx: int, chunks: Seq<Seq<char>>, i: int)
    -> Seq<TokenModel>
    decreases i,
{
    if i <= 0 {
        Seq::empty()
    } else {
        spec_paste_upto(tm, idx, chunks, i - 1) + spec_paste_chunk(tm, idx, chunks[i - 1])
    }
}

/// What one template area renders to, given the evaluation outcome: failed or
/// empty evaluation leaves the area unchanged; otherwise each blank-line
/// separated chunk becomes one copy of the area with only the classified
/// token replaced.
pub open spec fn spec_rendered_area(
    tm: Seq<TokenModel>,
    idx: int,
    rendered: Option<Seq<char>>,
) -> Seq<TokenModel> {
    match rendered {
        Some(text) => {
            if text.len() == 0 {
                tm
            } else {
                spec_paste_upto(
                    tm,
                    idx,
                    spec_split_by_empty_line(text),
                    spec_split_by_empty_line(text).len() as int,
                )
            }
        },
        None => tm,
    }
}

/// Paste an evaluation outcome into the template area: the area passes
/// through unchanged unless evaluation produced non-empty text, in which case
/// each chunk becomes one sibling copy of the area, keeping every structural
/// wrapper token and replacing only the classified token's text.
pub fn paste_rendered_text(
    template_tokens: &Vec<Token>,
    token_index_to_replace: usize,
    rendered: Option<String>,
) -> (r: Vec<Token>)
    requires
        token_index_to_replace < template_tokens@.len(),
    ensures
        r.deep_view() == spec_rendered_area(
            template_tokens.deep_view(),
            token_index_to_replace as int,
            rendered.deep_view(),
        ),
{
    let ghost tm = template_tokens.deep_view();
    let ghost idx = token_index_to_replace as int;
    match rendered {
        Some(text) => {
            if text.as_str().unicode_len() == 0 {
                let r = clone_tokens(template_tokens);
                return r;
            }
            let chunks = split_string_by_empty_line(text.as_str());
            let ghost cm = chunks.deep_view();
            let mut r: Vec<Token> = Vec::new();
            let mut i: usize = 0;
            while i < chunks.len()
                invariant
                    i <= chunks.len(),
                    tm == template_tokens.deep_view(),
                    idx == token_index_to_replace as int,
                    token_index_to_replace < template_tokens@.len(),
                    cm == chunks.deep_view(),
                    cm.len() == chunks@.len(),
                    r.deep_view() == spec_paste_upto(tm, idx, cm, i as int),
                decreases chunks.len() - i,
            {
                let ghost rold = r.deep_view();
                let chunk_text = chunks[i].clone();
                let chunk_copy = chunk_text.clone();
                let mut chunk_tokens = clone_tokens(template_tokens);
                let replacement = Token {
                    token_type: TokenType::Normal,
                    token_text: Some(chunk_text),
                    event: MarkupEvent::Characters(chunk_copy),
                };
                chunk_tokens.set(token_index_to_replace, replacement);
                proof {
                    assert(chunk_tokens.deep_view() =~~= spec_paste_chunk(tm, idx, cm[i as int]));
                }
                r.append(&mut chunk_tokens);
                proof {
                    assert(r.deep_view() =~= rold + spec_paste_chunk(tm, idx, cm[i as int]));
                }
                i = i + 1;
            }
            r
        },
        None => {
            let r = clone_tokens(template_tokens);
            r
        },
    }
}

/// Evaluate the template area's full text against the data context and paste
/// the outcome.
pub fn render_and_paste_tokens(
    template_tokens: &Vec<Token>,
    template_text: &str,
    token_index_to_replace: usize,
    data: &serde_json::Value,
) -> (r: Vec<Token>)
    requires
        token_index_to_replace < template_tokens@.len(),
    ensures
        r.deep_view() == spec_rendered_area(
            template_tokens.deep_view(),
            token_index_to_replace as int,
            eval_of(template_text@, *data),
        ),
{
    let rendered = eval_template(template_text, data);
    paste_rendered_text(template_tokens, token_index_to_replace, rendered)
}

/// The events of the first `i` tokens that have a writer form: every event
/// but the end of the document.
pub open spec fn emitted_upto(toks: Seq<TokenModel>, i: int) -> Seq<EventModel>
    decreases i,
{
    if i <= 0 {
        Seq::empty()
    } else {
        let prev = emitted_upto(toks, i - 1);
        if toks[i - 1].event is EndDocument {
            prev
        } else {
            prev.push(toks[i - 1].event)
        }
    }
}

/// Whether the emitter accepts the first `i` tokens' events in order.
pub open spec fn serializable_upto(toks: Seq<TokenModel>, i: int) -> bool
    decreases i,
{
    if i <= 0 {
        true
    } else {
        serializable_upto(toks, i - 1) && writer_accepts(
            emitted_upto(toks, i - 1),
            toks[i - 1].event,
        )
    }
}

/// A rejection among the first `i` tokens stays a rejection for any more.
pub proof fn lemma_unserializable_stays(toks: Seq<TokenModel>, i: int, j: int)
    requires
        0 <= i <= j,
        !serializable_upto(toks, i),
    ensures
        !serializable_upto(toks, j),
    decreases j - i,
{
    if i < j {
        lemma_unserializable_stays(toks, i + 1, j);
    }
}

/// Serialize the token list back to markup text.  It succeeds exactly when
/// the emitter accepts every token's event in order.
pub fn write_token_vector_to_string(tokens: &Vec<Token>) -> (r: Result<String, TextkitDocxError>)
    ensures
        match r {
            Ok(s) => {
                &&& serializable_upto(tokens.deep_view(), tokens@.len() as int)
                &&& s@ == markup_text_of(emitted_upto(tokens.deep_view(), tokens@.len() as int))
            },
            Err(e) => {
                &&& !serializable_upto(tokens.deep_view(), tokens@.len() as int)
                &&& e is FailedWriteXml
            },
        },
{
    let ghost tm = tokens.deep_view();
    let mut writer = new_markup_writer();
    let mut i: usize = 0;
    while i < tokens.len()
        invariant
            i <= tokens.len(),
            tm == tokens.deep_view(),
            tm.len() == tokens@.len(),
            writer_doc(writer) == emitted_upto(tm, i as int),
            serializable_upto(tm, i as int),
        decreases tokens.len() - i,
    {
        let ok = write_markup_event(&mut writer, &tokens[i].event);
        if !ok {
            proof {
                assert(!serializable_upto(tm, i as int + 1));
                lemma_unserializable_stays(tm, i as int + 1, tm.len() as int);
            }
            return Err(TextkitDocxError::FailedWriteXml);
        }
        i = i + 1;
    }
    Ok(crate::xmlio::markup_writer_text(writer))
}

/// The identifier's numeric suffix, when the value is `rId` followed by
/// digits.
pub open spec fn id_suffix(v: Seq<char>) -> Option<u64> {
    if v.len() >= 3 && v.take(3) == "rId"@ {
        spec_parse_u64(v.skip(3))
    } else {
        None
    }
}

/// The largest relationship-id suffix among the first `j` attributes.
pub open spec fn attr_max_id(attrs: Seq<MarkupAttributeModel>, j: int) -> u64
    decreases j,
{
    if j <= 0 {
        0
    } else {
        let prev = attr_max_id(attrs, j - 1);
        if attrs[j - 1].name.local == "Id"@ {
            match id_suffix(attrs[j - 1].value) {
                Some(n) => if n > prev {
                    n
                } else {
                    prev
                },
                None => prev,
            }
        } else {
            prev
        }
    }
}

/// The largest relationship-id suffix among the first `i` tokens.
pub open spec fn max_id_upto(toks: Seq<TokenModel>, i: int) -> u64
    decreases i,
{
    if i <= 0 {
        0
    } else {
        let prev = max_id_upto(toks, i - 1);
        let here = match toks[i - 1].event {
            EventModel::StartElement { attributes, .. } => attr_max_id(
                attributes,
                attributes.len() as int,
            ),
            _ => 0,
        };
        if here > prev {
            here
        } else {
            prev
        }
    }
}

/// The largest numeric suffix of any relationship id declared in the
/// relationships part, `0` when none is declared.
pub fn get_last_id_number_for_document_xml_rels(document_xml_rels_tokens: &Vec<Token>) -> (r: u64)
    ensures
        r == max_id_upto(
            document_xml_rels_tokens.deep_view(),
            document_xml_rels_tokens@.len() as int,
        ),
{
    let ghost tm = document_xml_rels_tokens.deep_view();
    let mut latest: u64 = 0;
    let mut i: usize = 0;
    while i < document_xml_rels_tokens.len()
        invariant
            i <= document_xml_rels_tokens.len(),
            tm == document_xml_rels_tokens.deep_view(),
            tm.len() == document_xml_rels_tokens@.len(),
            latest == max_id_upto(tm, i as int),
        decreases document_xml_rels_tokens.len() - i,
    {
        match &document_xml_rels_tokens[i].event {
            MarkupEvent::StartElement { attributes, .. } => {
                let ghost am = attributes.deep_view();
                let mut here: u64 = 0;
                let mut j: usize = 0;
                while j < attributes.len()
                    invariant
                        j <= attributes.len(),
                        am == attributes.deep_view(),
                        am.len() == attributes@.len(),
                        here == attr_max_id(am, j as int),
                    decreases attributes.len() - j,
                {
                    let a = &attributes[j];
                    if str_eq(a.name.local.as_str(), "Id") {
                        match rel_id_suffix(a.value.as_str()) {
                            Some(n) => {
                                if n > here {
                                    here = n;
                                }
                            },
                            None => {},
                        }
                    }
                    j = j + 1;
                }
                if here > latest {
                    latest = here;
                }
            },
            _ => {},
        }
        proof {
            assert(tm[i as int] == document_xml_rels_tokens@[i as int].deep_view());
        }
        i = i + 1;
    }
    latest
}

/// Parse an `rId` suffix out of an identifier value.
fn rel_id_suffix(v: &str) -> (r: Option<u64>)
    ensures
        r == id_suffix(v@),
{
    let cs = chars_of(v);
    if cs.len() < 3 {
        return None;
    }
    if !(cs[0] == 'r' && cs[1] == 'I' && cs[2] == 'd') {
        proof {
            reveal_strlit("rId");
            assert(v@.take(3) != "rId"@) by {
                if v@.take(3) == "rId"@ {
                    assert(v@.take(3)[0] == 'r' && v@.take(3)[1] == 'I' && v@.take(3)[2] == 'd');
                    assert(false);
                }
            }
        }
        return None;
    }
    proof {
        reveal_strlit("rId");
        assert(v@.take(3) =~= "rId"@);
    }
    let digits = sub_chars(&cs, 3, cs.len());
    let ds = chars_to_string(&digits);
    proof {
        assert(ds@ =~= v@.skip(3));
    }
    parse_u64(ds.as_str())
}

/// The two tokens declaring one image relationship.
pub open spec fn spec_rel_entry(rel_id: Seq<char>, filename: Seq<char>) -> Seq<TokenModel> {
    seq![
        m_start(
            None,
            None,
            "Relationship"@,
            seq![
                m_plain_attr("Id"@, rel_id),
                m_plain_attr(
                    "Type"@,
                    "http://schemas.openxmlformats.org/officeDocument/2006/relationships/image"@,
                ),
                m_plain_attr("Target"@, "media/"@ + filename),
            ],
        ),
        m_end(None, None, "Relationship"@),
    ]
}

/// The relationship entries for the first `i` images.
pub open spec fn spec_rel_entries_upto(images: Seq<(Seq<char>, ImageModel)>, i: int) -> Seq<
    TokenModel,
>
    decreases i,
{
    if i <= 0 {
        Seq::empty()
    } else {
        spec_rel_entries_upto(images, i - 1) + spec_rel_entry(
            images[i - 1].0,
            images[i - 1].1.file_contents.filename,
        )
    }
}

/// The relationships part with one entry added per image, spliced in before
/// the part's two closing tokens.
pub open spec fn spec_rels_with_images(
    toks: Seq<TokenModel>,
    images: Seq<(Seq<char>, ImageModel)>,
) -> Seq<TokenModel> {
    toks.take(toks.len() - 2) + spec_rel_entries_upto(images, images.len() as int) + toks.skip(
        toks.len() - 2,
    )
}

/// Add one relationship entry per image asset, pointing at its media file,
/// before the closing tokens of the relationships part.
pub fn insert_images_in_document_xml_rels(
    document_xml_rels_tokens: &Vec<Token>,
    images: &Vec<(String, ImageFileContents)>,
) -> (r: Vec<Token>)
    requires
        document_xml_rels_tokens@.len() >= 2,
    ensures
        r.deep_view() == spec_rels_with_images(
            document_xml_rels_tokens.deep_view(),
            images.deep_view(),
        ),
{
    let ghost tm = document_xml_rels_tokens.deep_view();
    let ghost im = images.deep_view();
    let len = document_xml_rels_tokens.len();
    let mut r: Vec<Token> = Vec::new();
    let mut i: usize = 0;
    while i < len - 2
        invariant
            i <= len - 2,
            2 <= len,
            len == document_xml_rels_tokens@.len(),
            tm == document_xml_rels_tokens.deep_view(),
            r.len() == i,
            forall|k: int| 0 <= k < i ==> r.deep_view()[k] == tm[k],
        decreases len - i,
    {
        r.push(document_xml_rels_tokens[i].clone());
        i = i + 1;
    }
    proof {
        assert(r.deep_view() =~= tm.take(len - 2));
    }
    let ghost prefix = r.deep_view();
    let mut k: usize = 0;
    while k < images.len()
        invariant
            k <= images.len(),
            im == images.deep_view(),
            im.len() == images@.len(),
            r.deep_view() =~= prefix + spec_rel_entries_upto(im, k as int),
        decreases images.len() - k,
    {
        let ghost rold = r.deep_view();
        let rel_id = &images[k].0;
        let mut target = "media/".to_owned();
        target.append(images[k].1.file_contents.filename.as_str());
        proof {
            reveal_strlit("media/");
        }
        let attrs = vec![
            owned_attribute(None, None, "Id", rel_id.as_str()),
            owned_attribute(
                None,
                None,
                "Type",
                "http://schemas.openxmlformats.org/officeDocument/2006/relationships/image",
            ),
            owned_attribute(None, None, "Target", target.as_str()),
        ];
        r.push(start_tag_event(None, None, "Relationship", attrs));
        r.push(end_tag_event(None, None, "Relationship"));
        proof {
            assert(r.deep_view() =~~= rold + spec_rel_entry(
                im[k as int].0,
                im[k as int].1.file_contents.filename,
            ));
        }
        k = k + 1;
    }
    let ghost rmid = r.deep_view();
    let mut sequel: Vec<Token> = Vec::new();
    let mut i2: usize = len - 2;
    while i2 < len
        invariant
            len - 2 <= i2 <= len,
            2 <= len,
            len == document_xml_rels_tokens@.len(),
            tm == document_xml_rels_tokens.deep_view(),
            sequel.len() == i2 - (len - 2),
            forall|k: int| len - 2 <= k < i2 ==> sequel.deep_view()[k - (len - 2)] == #[trigger] tm[k],
        decreases len - i2,
    {
        sequel.push(document_xml_rels_tokens[i2].clone());
        proof {
            assert(tm[i2 as int] == document_xml_rels_tokens@[i2 as int].deep_view());
        }
        i2 = i2 + 1;
    }
    proof {
        assert(sequel.deep_view() =~= tm.skip(len - 2));
    }
    r.append(&mut sequel);
    proof {
        assert(r.deep_view() =~= rmid + tm.skip(len - 2));
        assert(r.deep_view() =~= spec_rels_with_images(tm, im));
    }
    r
}

/// The two tokens declaring the default PNG content type.
pub open spec fn spec_png_default_entry() -> Seq<TokenModel> {
    seq![
        m_start(
            None,
            None,
            "Default"@,
            seq![m_plain_attr("Extension"@, "png"@), m_plain_attr("ContentType"@, "image/png"@)],
        ),
        m_end(None, None, "Default"@),
    ]
}

/// Whether some attribute declares the extension `png`.
pub open spec fn attr_has_png_ext(attrs: Seq<MarkupAttributeModel>) -> bool {
    exists|j: int|
        0 <= j < attrs.len() && (#[trigger] attrs[j]).name.local == "Extension"@ && attrs[j].value
            == "png"@
}

/// Whether the token declares the default entry for the extension `png`.
pub open spec fn token_has_png_default(tm: TokenModel) -> bool {
    match tm.event {
        EventModel::StartElement { name, attributes, .. } => name.local == "Default"@
            && attr_has_png_ext(attributes),
        _ => false,
    }
}

/// Whether a default entry for the extension `png` is already declared.
pub open spec fn has_png_default(toks: Seq<TokenModel>) -> bool {
    exists|i: int| 0 <= i < toks.len() && token_has_png_default(#[trigger] toks[i])
}

/// The content-type registry with a default PNG entry: unchanged when one is
/// already declared, else with the entry spliced in after the registry's
/// first two tokens.
pub open spec fn spec_with_png_default(toks: Seq<TokenModel>) -> Seq<TokenModel> {
    if has_png_default(toks) {
        toks
    } else {
        toks.take(2) + spec_png_default_entry() + toks.skip(2)
    }
}

/// Add a default PNG content type to the registry part, unless one is
/// already declared.
pub fn insert_png_content_type(content_type_tokens: &Vec<Token>) -> (r: Vec<Token>)
    requires
        content_type_tokens@.len() >= 2,
    ensures
        r.deep_view() == spec_with_png_default(content_type_tokens.deep_view()),
{
    let ghost tm = content_type_tokens.deep_view();
    let mut found = false;
    let mut i: usize = 0;
    while i < content_type_tokens.len()
        invariant_except_break
            !found,
        invariant
            i <= content_type_tokens.len(),
            tm == content_type_tokens.deep_view(),
            tm.len() == content_type_tokens@.len(),
            forall|a: int| 0 <= a < i ==> !token_has_png_default(#[trigger] tm[a]),
        ensures
            found ==> has_png_default(tm),
            !found ==> forall|a: int|
                0 <= a < content_type_tokens@.len() ==> !token_has_png_default(#[trigger] tm[a]),
        decreases content_type_tokens.len() - i,
    {
        let mut hit = false;
        match &content_type_tokens[i].event {
            MarkupEvent::StartElement { name, attributes, .. } => {
                if str_eq(name.local.as_str(), "Default") {
                    let ghost am = attributes.deep_view();
                    let mut j: usize = 0;
                    while j < attributes.len()
                        invariant_except_break
                            !hit,
                        invariant
                            j <= attributes.len(),
                            am == attributes.deep_view(),
                            am.len() == attributes@.len(),
                            forall|k: int|
                                0 <= k < j ==> !((#[trigger] am[k]).name.local == "Extension"@
                                    && am[k].value == "png"@),
                        ensures
                            hit == attr_has_png_ext(am),
                        decreases attributes.len() - j,
                    {
                        let a = &attributes[j];
                        if str_eq(a.name.local.as_str(), "Extension") && str_eq(
                            a.value.as_str(),
                            "png",
                        ) {
                            proof {
                                assert(am[j as int].name.local == "Extension"@ && am[
                                    j as int].value == "png"@);
                            }
                            hit = true;
                            break ;
                        }
                        j = j + 1;
                    }
                    proof {
                        assert(tm[i as int] == content_type_tokens@[i as int].deep_view());
                        assert(hit == token_has_png_default(tm[i as int]));
                    }
                } else {
                    proof {
                        assert(tm[i as int] == content_type_tokens@[i as int].deep_view());
                        assert(!token_has_png_default(tm[i as int]));
                    }
                }
            },
            _ => {
                proof {
                    assert(tm[i as int] == content_type_tokens@[i as int].deep_view());
                    assert(!token_has_png_default(tm[i as int]));
                }
            },
        }
        if hit {
            found = true;
            proof {
                assert(token_has_png_default(tm[i as int]));
                assert(has_png_default(tm));
            }
            break ;
        }
        i = i + 1;
    }
    if found {
        let r = clone_tokens(content_type_tokens);
        return r;
    }
    proof {
        assert(!has_png_default(tm));
    }
    let mut r: Vec<Token> = Vec::new();
    r.push(content_type_tokens[0].clone());
    r.push(content_type_tokens[1].clone());
    let attrs = vec![
        owned_attribute(None, None, "Extension", "png"),
        owned_attribute(None, None, "ContentType", "image/png"),
    ];
    r.push(start_tag_event(None, None, "Default", attrs));
    r.push(end_tag_event(None, None, "Default"));
    proof {
        assert(r.deep_view() =~~= tm.take(2) + spec_png_default_entry());
    }
    let ghost rmid = r.deep_view();
    let mut sequel: Vec<Token> = Vec::new();
    let mut i2: usize = 2;
    while i2 < content_type_tokens.len()
        invariant
            2 <= i2 <= content_type_tokens.len(),
            tm == content_type_tokens.deep_view(),
            tm.len() == content_type_tokens@.len(),
            2 <= tm.len(),
            sequel.len() == i2 - 2,
            forall|k: int| 2 <= k < i2 ==> sequel.deep_view()[k - 2] == #[trigger] tm[k],
        decreases content_type_tokens.len() - i2,
    {
        sequel.push(content_type_tokens[i2].clone());
        proof {
            assert(tm[i2 as int] == content_type_tokens@[i2 as int].deep_view());
        }
        i2 = i2 + 1;
    }
    proof {
        assert(sequel.deep_view() =~= tm.skip(2));
    }
    r.append(&mut sequel);
    proof {
        assert(r.deep_view() =~= rmid + tm.skip(2));
        assert(r.deep_view() =~~= spec_with_png_default(tm));
    }
    r
}

/// A fresh relationship id continuing the given numeric suffix.
pub fn make_rel_id(n: u64) -> (r: String)
    ensures
        r@ == "rId"@ + dec_of(n as nat),
{
    proof {
        reveal_strlit("rId");
    }
    let mut s = "rId".to_owned();
    let num = u64_to_string(n);
    s.append(num.as_str());
    s
}

} // verus!
