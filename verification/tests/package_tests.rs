use std::io::{Read, Write};
use textkit_docx::template::DocxTemplate;

fn document_part(body: &str) -> String {
    let mut s = String::new();
    s.push_str("<?xml version=\"1.0\" encoding=\"UTF-8\" standalone=\"yes\"?>");
    s.push_str("<w:document xmlns:w=\"http://schemas.openxmlformats.org/wordprocessingml/2006/main\">");
    s.push_str("<w:body>");
    s.push_str(body);
    s.push_str("<w:sectPr><w:pgSz w:w=\"12240\" w:h=\"15840\"/>");
    s.push_str("<w:pgMar w:top=\"1440\" w:right=\"1440\" w:bottom=\"1440\" w:left=\"1440\" ");
    s.push_str("w:header=\"720\" w:footer=\"720\" w:gutter=\"0\"/></w:sectPr>");
    s.push_str("</w:body></w:document>");
    s
}

fn rels_part() -> &'static str {
    "<?xml version=\"1.0\" encoding=\"UTF-8\" standalone=\"yes\"?>\
     <Relationships xmlns=\"http://schemas.openxmlformats.org/package/2006/relationships\">\
     <Relationship Id=\"rId1\" Type=\"http://schemas.openxmlformats.org/officeDocument/2006/relationships/styles\" Target=\"styles.xml\"/>\
     </Relationships>"
}

fn content_types_part() -> &'static str {
    "<?xml version=\"1.0\" encoding=\"UTF-8\" standalone=\"yes\"?>\
     <Types xmlns=\"http://schemas.openxmlformats.org/package/2006/content-types\">\
     <Default Extension=\"xml\" ContentType=\"application/xml\"/>\
     <Default Extension=\"rels\" ContentType=\"application/vnd.openxmlformats-package.relationships+xml\"/>\
     </Types>"
}

fn styles_part() -> &'static str {
    "<?xml version=\"1.0\"?><w:styles xmlns:w=\"http://schemas.openxmlformats.org/wordprocessingml/2006/main\"/>"
}

fn make_docx(body: &str) -> Vec<u8> {
    let mut w = zip::ZipWriter::new(std::io::Cursor::new(Vec::new()));
    let opts = zip::write::SimpleFileOptions::default();
    w.start_file("word/document.xml", opts).unwrap();
    w.write_all(document_part(body).as_bytes()).unwrap();
    w.start_file("word/_rels/document.xml.rels", opts).unwrap();
    w.write_all(rels_part().as_bytes()).unwrap();
    w.start_file("[Content_Types].xml", opts).unwrap();
    w.write_all(content_types_part().as_bytes()).unwrap();
    w.start_file("word/styles.xml", opts).unwrap();
    w.write_all(styles_part().as_bytes()).unwrap();
    w.finish().unwrap().into_inner()
}

fn entry_bytes(archive: &[u8], name: &str) -> Vec<u8> {
    let mut z = zip::ZipArchive::new(std::io::Cursor::new(archive.to_vec())).unwrap();
    let mut f = z.by_name(name).unwrap();
    let mut v = Vec::new();
    f.read_to_end(&mut v).unwrap();
    v
}

fn entry_text(archive: &[u8], name: &str) -> String {
    String::from_utf8(entry_bytes(archive, name)).unwrap()
}

fn simple_paragraph(text: &str) -> String {
    let mut s = String::new();
    s.push_str("<w:p><w:r><w:t>");
    s.push_str(text);
    s.push_str("</w:t></w:r></w:p>");
    s
}

fn string_value(s: &str) -> serde_json::Value {
    serde_json::Value::String(s.to_string())
}

fn object(pairs: Vec<(&str, serde_json::Value)>) -> serde_json::Value {
    let mut m = serde_json::Map::new();
    for (k, v) in pairs {
        m.insert(k.to_string(), v);
    }
    serde_json::Value::Object(m)
}

fn count(haystack: &str, needle: &str) -> usize {
    haystack.matches(needle).count()
}

#[test]
fn scalar_substitution() {
    let docx = make_docx(&simple_paragraph("Hello {{name}}!"));
    let template = DocxTemplate::from_bytes(&docx).unwrap();
    let data = object(vec![("name", string_value("World"))]);
    let out = template.render(&data).unwrap();
    let doc = entry_text(&out, "word/document.xml");
    assert!(doc.contains("Hello World!"));
    assert!(!doc.contains("{{name}}"));
}

#[test]
fn round_trip_without_placeholders() {
    let docx = make_docx(&simple_paragraph("Nothing to fill in."));
    let template = DocxTemplate::from_bytes(&docx).unwrap();
    let data = object(vec![]);
    let out = template.render(&data).unwrap();
    let doc = entry_text(&out, "word/document.xml");
    assert!(doc.contains("Nothing to fill in."));
    assert_eq!(count(&doc, "<w:p>"), 1);
    // Every other entry is byte-identical to the source.
    assert_eq!(entry_bytes(&out, "word/styles.xml"), styles_part().as_bytes());
    assert_eq!(entry_bytes(&out, "word/_rels/document.xml.rels"), rels_part().as_bytes());
    assert_eq!(entry_bytes(&out, "[Content_Types].xml"), content_types_part().as_bytes());
}

#[test]
fn part_isolation_with_substitution() {
    let docx = make_docx(&simple_paragraph("Hello {{name}}!"));
    let template = DocxTemplate::from_bytes(&docx).unwrap();
    let data = object(vec![("name", string_value("World"))]);
    let out = template.render(&data).unwrap();
    assert_eq!(entry_bytes(&out, "word/styles.xml"), styles_part().as_bytes());
    assert_eq!(entry_bytes(&out, "word/_rels/document.xml.rels"), rels_part().as_bytes());
    assert_eq!(entry_bytes(&out, "[Content_Types].xml"), content_types_part().as_bytes());
}

#[test]
fn split_run_reassembly() {
    let split_body =
        "<w:p><w:r><w:t>{{na</w:t></w:r><w:r><w:t>me</w:t></w:r><w:r><w:t>}}</w:t></w:r></w:p>";
    let docx_split = make_docx(split_body);
    let docx_whole = make_docx(&simple_paragraph("{{name}}"));
    let data = object(vec![("name", string_value("World"))]);
    let out_split = DocxTemplate::from_bytes(&docx_split).unwrap().render(&data).unwrap();
    let out_whole = DocxTemplate::from_bytes(&docx_whole).unwrap().render(&data).unwrap();
    let doc_split = entry_text(&out_split, "word/document.xml");
    let doc_whole = entry_text(&out_whole, "word/document.xml");
    assert!(doc_split.contains("World"));
    assert_eq!(doc_split, doc_whole);
}

#[test]
fn one_paragraph_with_two_placeholders() {
    let docx = make_docx(&simple_paragraph("{{a}} and {{b}}"));
    let template = DocxTemplate::from_bytes(&docx).unwrap();
    let data = object(vec![("a", string_value("alpha")), ("b", string_value("beta"))]);
    let out = template.render(&data).unwrap();
    let doc = entry_text(&out, "word/document.xml");
    assert_eq!(count(&doc, "<w:p>"), 1);
    assert!(doc.contains("alpha and beta"));
}

#[test]
fn shared_paragraph_renders_once() {
    let body = "<w:p><w:r><w:t>{{a}}</w:t></w:r><w:r><w:t xml:space=\"preserve\"> and {{b}}</w:t></w:r></w:p>";
    let docx = make_docx(body);
    let template = DocxTemplate::from_bytes(&docx).unwrap();
    let data = object(vec![("a", string_value("alpha")), ("b", string_value("beta"))]);
    let out = template.render(&data).unwrap();
    let doc = entry_text(&out, "word/document.xml");
    assert_eq!(count(&doc, "<w:p>"), 1);
    assert!(doc.contains("alpha"));
}

#[test]
fn missing_key_keeps_paragraph() {
    let docx = make_docx(&simple_paragraph("{{missing}}"));
    let template = DocxTemplate::from_bytes(&docx).unwrap();
    let data = object(vec![]);
    let out = template.render(&data).unwrap();
    let doc = entry_text(&out, "word/document.xml");
    assert_eq!(count(&doc, "<w:p>"), 1);
    assert!(doc.contains("{{missing}}"));
}

#[test]
fn multi_paragraph_expansion() {
    let docx = make_docx(&simple_paragraph("{{body}}"));
    let template = DocxTemplate::from_bytes(&docx).unwrap();
    let data = object(vec![("body", string_value("one\n\ntwo"))]);
    let out = template.render(&data).unwrap();
    let doc = entry_text(&out, "word/document.xml");
    assert_eq!(count(&doc, "<w:p>"), 2);
    assert!(doc.contains("one"));
    assert!(doc.contains("two"));
}

#[test]
fn table_helper_builds_grid_rows_and_cells() {
    let docx = make_docx(&simple_paragraph("{{table tbl}}"));
    let template = DocxTemplate::from_bytes(&docx).unwrap();
    let col_a = serde_json::Value::Array(vec![
        serde_json::Value::Number(serde_json::Number::from(1i64)),
        serde_json::Value::Number(serde_json::Number::from(2i64)),
        serde_json::Value::Number(serde_json::Number::from(3i64)),
    ]);
    let col_b = serde_json::Value::Array(vec![
        string_value("x"),
        string_value("y"),
        string_value("z"),
    ]);
    let tbl = object(vec![("columns", serde_json::Value::Array(vec![col_a, col_b]))]);
    let data = object(vec![("tbl", tbl)]);
    let out = template.render(&data).unwrap();
    let doc = entry_text(&out, "word/document.xml");
    assert_eq!(count(&doc, "<w:tbl>"), 1);
    assert_eq!(count(&doc, "<w:tblGrid>"), 1);
    assert_eq!(count(&doc, "<w:gridCol"), 2);
    assert_eq!(count(&doc, "<w:tr>"), 3);
    assert_eq!(count(&doc, "<w:tc>"), 6);
    // Two columns split the printable width 12240 - 1440 - 1440 evenly.
    assert_eq!(count(&doc, "w:w=\"4680\""), 2 + 6);
    assert!(doc.contains(">1<") || doc.contains("<w:t xml:space=\"preserve\">1<"));
}

#[test]
fn table_helper_formats_cell_kinds() {
    let docx = make_docx(&simple_paragraph("{{table tbl}}"));
    let template = DocxTemplate::from_bytes(&docx).unwrap();
    let real = serde_json::Number::from_f64(2.5).unwrap();
    let col = serde_json::Value::Array(vec![
        serde_json::Value::Number(serde_json::Number::from(-7i64)),
        serde_json::Value::Number(real),
        serde_json::Value::Bool(true),
        serde_json::Value::Bool(false),
        string_value("plain"),
    ]);
    let tbl = object(vec![("columns", serde_json::Value::Array(vec![col]))]);
    let data = object(vec![("tbl", tbl)]);
    let out = template.render(&data).unwrap();
    let doc = entry_text(&out, "word/document.xml");
    assert!(doc.contains("-7"));
    assert!(doc.contains("2.500"));
    assert!(doc.contains("Yes"));
    assert!(doc.contains("No"));
    assert!(doc.contains("plain"));
}

#[test]
fn markdown_helper_maps_headings_and_emphasis() {
    let docx = make_docx(&simple_paragraph("{{markdown md}}"));
    let template = DocxTemplate::from_bytes(&docx).unwrap();
    let data = object(vec![("md", string_value("# Title\n\nHello *world* here"))]);
    let out = template.render(&data).unwrap();
    let doc = entry_text(&out, "word/document.xml");
    assert!(doc.contains("Heading2"));
    assert!(doc.contains("Title"));
    assert!(doc.contains("world"));
    assert!(doc.contains("<w:i"));
}

#[test]
fn unknown_helper_is_a_no_op() {
    let docx = make_docx(&simple_paragraph("before {{shiny x}} after"));
    let template = DocxTemplate::from_bytes(&docx).unwrap();
    let data = object(vec![("x", string_value("ignored"))]);
    let out = template.render(&data).unwrap();
    let doc = entry_text(&out, "word/document.xml");
    assert!(doc.contains("before "));
    assert!(doc.contains(" after"));
    assert!(!doc.contains("shiny"));
}

fn tiny_png() -> Vec<u8> {
    let mut bytes: Vec<u8> = Vec::new();
    {
        let mut enc = png::Encoder::new(std::io::Cursor::new(&mut bytes), 2, 3);
        enc.set_color(png::ColorType::RGBA);
        enc.set_depth(png::BitDepth::Eight);
        let mut writer = enc.write_header().unwrap();
        writer.write_image_data(&[128u8; 2 * 3 * 4]).unwrap();
    }
    bytes
}

#[test]
fn jupyter_helper_adds_image_assets() {
    let docx = make_docx(&simple_paragraph("{{jupyter nb}}"));
    let template = DocxTemplate::from_bytes(&docx).unwrap();
    let png_bytes = tiny_png();
    let b64 = base64::encode(&png_bytes);
    let md_cell = object(vec![
        ("cell_type", string_value("markdown")),
        ("source", serde_json::Value::Array(vec![string_value("# Report")])),
    ]);
    let text_output = object(vec![
        ("output_type", string_value("execute_result")),
        (
            "data",
            object(vec![("text/plain", serde_json::Value::Array(vec![string_value("42")]))]),
        ),
    ]);
    let png_output = object(vec![
        ("output_type", string_value("display_data")),
        ("data", object(vec![("image/png", string_value(&b64))])),
    ]);
    let code_cell = object(vec![
        ("cell_type", string_value("code")),
        ("source", serde_json::Value::Array(vec![])),
        ("outputs", serde_json::Value::Array(vec![text_output, png_output])),
    ]);
    let nb = object(vec![
        ("cells", serde_json::Value::Array(vec![md_cell, code_cell])),
        ("nbformat", serde_json::Value::Number(serde_json::Number::from(4i64))),
        ("nbformat_minor", serde_json::Value::Number(serde_json::Number::from(5i64))),
    ]);
    let data = object(vec![("nb", nb)]);
    let out = template.render(&data).unwrap();

    let doc = entry_text(&out, "word/document.xml");
    assert!(doc.contains("Report"));
    assert!(doc.contains("Consolas"));
    assert!(doc.contains("42"));
    assert!(doc.contains("Figure 1"));
    assert!(doc.contains("rId2"));
    // The probed pixel size appears in drawing units.
    let cx = 2u64 * 914400 / 72 + 2540;
    let cy = 3u64 * 914400 / 72 + 2540;
    assert!(doc.contains(&format!("cx=\"{}\"", cx)));
    assert!(doc.contains(&format!("cy=\"{}\"", cy)));

    assert_eq!(entry_bytes(&out, "word/media/figure-1.png"), png_bytes);
    let rels = entry_text(&out, "word/_rels/document.xml.rels");
    assert!(rels.contains("rId2"));
    assert!(rels.contains("media/figure-1.png"));
    let ct = entry_text(&out, "[Content_Types].xml");
    assert!(ct.contains("Extension=\"png\""));
    // The untouched entry stays byte-identical even when images are added.
    assert_eq!(entry_bytes(&out, "word/styles.xml"), styles_part().as_bytes());
}

#[test]
fn renders_are_repeatable() {
    let docx = make_docx(&simple_paragraph("Hello {{name}}!"));
    let template = DocxTemplate::from_bytes(&docx).unwrap();
    let data = object(vec![("name", string_value("World"))]);
    let first = template.render(&data).unwrap();
    let second = template.render(&data).unwrap();
    assert_eq!(first, second);
    let other = object(vec![("name", string_value("Again"))]);
    let third = template.render(&other).unwrap();
    assert!(entry_text(&third, "word/document.xml").contains("Hello Again!"));
}

#[test]
fn missing_geometry_is_rejected() {
    let mut w = zip::ZipWriter::new(std::io::Cursor::new(Vec::new()));
    let opts = zip::write::SimpleFileOptions::default();
    w.start_file("word/document.xml", opts).unwrap();
    w.write_all(
        "<?xml version=\"1.0\"?><w:document xmlns:w=\"http://schemas.openxmlformats.org/wordprocessingml/2006/main\"><w:body/></w:document>".as_bytes(),
    ).unwrap();
    w.start_file("word/_rels/document.xml.rels", opts).unwrap();
    w.write_all(rels_part().as_bytes()).unwrap();
    w.start_file("[Content_Types].xml", opts).unwrap();
    w.write_all(content_types_part().as_bytes()).unwrap();
    let bytes = w.finish().unwrap().into_inner();
    let r = DocxTemplate::from_bytes(&bytes);
    assert!(r.is_err());
    match r {
        Err(e) => assert_eq!(e.message(), "Page height attribute not found"),
        Ok(_) => unreachable!(),
    }
}

#[test]
fn missing_part_is_rejected() {
    let mut w = zip::ZipWriter::new(std::io::Cursor::new(Vec::new()));
    let opts = zip::write::SimpleFileOptions::default();
    w.start_file("word/other.xml", opts).unwrap();
    w.write_all(b"<x/>").unwrap();
    let bytes = w.finish().unwrap().into_inner();
    assert!(DocxTemplate::from_bytes(&bytes).is_err());
}

#[test]
fn malformed_markup_is_rejected() {
    let mut w = zip::ZipWriter::new(std::io::Cursor::new(Vec::new()));
    let opts = zip::write::SimpleFileOptions::default();
    w.start_file("word/document.xml", opts).unwrap();
    w.write_all(b"<w:document <<< not markup").unwrap();
    w.start_file("word/_rels/document.xml.rels", opts).unwrap();
    w.write_all(rels_part().as_bytes()).unwrap();
    w.start_file("[Content_Types].xml", opts).unwrap();
    w.write_all(content_types_part().as_bytes()).unwrap();
    let bytes = w.finish().unwrap().into_inner();
    assert!(DocxTemplate::from_bytes(&bytes).is_err());
}

#[test]
fn bad_table_value_is_an_error() {
    let docx = make_docx(&simple_paragraph("{{table tbl}}"));
    let template = DocxTemplate::from_bytes(&docx).unwrap();
    let data = object(vec![("tbl", string_value("not a table"))]);
    assert!(template.render(&data).is_err());
}

#[test]
fn block_markers_accumulate_across_runs() {
    let body = "<w:p><w:r><w:t>{{#each xs}}</w:t></w:r>\
        <w:r><w:t>{{this}} {{/each}}</w:t></w:r></w:p>";
    let docx = make_docx(body);
    let template = DocxTemplate::from_bytes(&docx).unwrap();
    let xs = serde_json::Value::Array(vec![string_value("a"), string_value("b")]);
    let data = object(vec![("xs", xs)]);
    let out = template.render(&data).unwrap();
    let doc = entry_text(&out, "word/document.xml");
    assert!(doc.contains("a b"));
    assert!(!doc.contains("each"));
}

#[test]
fn area_without_paragraph_passes_through() {
    let body = "<w:t>{{name}}</w:t>";
    let docx = make_docx(body);
    let template = DocxTemplate::from_bytes(&docx).unwrap();
    let data = object(vec![("name", string_value("World"))]);
    let out = template.render(&data).unwrap();
    let doc = entry_text(&out, "word/document.xml");
    assert!(doc.contains("{{name}}"));
    assert!(!doc.contains("World"));
}
