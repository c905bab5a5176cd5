use textkit_docx::accumulator::TemplateAccumulator;
use textkit_docx::grammar::is_simple_placeholders_completely_closed;
use textkit_docx::model::TokenType;
use textkit_docx::parse::classify_text;
use textkit_docx::pixels_to_word_emu;
use textkit_docx::placeholder::parse_template_placeholders;
use textkit_docx::strutil::{i64_to_string, parse_i32, parse_u64, split_string_by_empty_line,
    u64_to_string};

#[test]
fn balanced_brackets_are_closed() {
    assert!(is_simple_placeholders_completely_closed("{{a}}"));
    assert!(is_simple_placeholders_completely_closed("no brackets at all"));
    assert!(is_simple_placeholders_completely_closed("{{a}} and {{b}}"));
    assert!(!is_simple_placeholders_completely_closed("{{a}"));
    assert!(!is_simple_placeholders_completely_closed("{{a}} {{"));
}

#[test]
fn classification_follows_the_grammar() {
    assert_eq!(classify_text("Hello {{name}}!"), TokenType::Template);
    assert_eq!(classify_text("{{table tbl}}"), TokenType::ComplexTemplate);
    assert_eq!(classify_text("plain text"), TokenType::Normal);
    assert_eq!(classify_text("a { b } c"), TokenType::Normal);
    // A simple placeholder anywhere wins over a helper placeholder.
    assert_eq!(classify_text("{{a}} {{table t}}"), TokenType::Template);
}

#[test]
fn accumulator_reassembles_split_marker() {
    let mut acc = TemplateAccumulator::Idle;
    acc.accumulate("{{na");
    assert!(matches!(acc, TemplateAccumulator::Accumulating { .. }));
    acc.accumulate("me");
    assert!(matches!(acc, TemplateAccumulator::Accumulating { .. }));
    acc.accumulate("}}");
    match &acc {
        TemplateAccumulator::Done(s) => assert_eq!(s, "{{name}}"),
        _ => panic!("the accumulator did not finish"),
    }
    acc.reset();
    assert!(matches!(acc, TemplateAccumulator::Idle));
}

#[test]
fn accumulator_passes_plain_text_through() {
    let mut acc = TemplateAccumulator::Idle;
    acc.accumulate("ordinary words");
    match &acc {
        TemplateAccumulator::Done(s) => assert_eq!(s, "ordinary words"),
        _ => panic!("plain text should finish at once"),
    }
}

#[test]
fn accumulator_gathers_block_markers() {
    let mut acc = TemplateAccumulator::Idle;
    acc.accumulate("{{#each x}}");
    assert!(matches!(acc, TemplateAccumulator::Accumulating { .. }));
    acc.accumulate("{{this}} {{/each}}");
    match &acc {
        TemplateAccumulator::Done(s) => assert_eq!(s, "{{#each x}}{{this}} {{/each}}"),
        _ => panic!("the block should be complete"),
    }
}

#[test]
fn split_on_blank_lines() {
    assert_eq!(split_string_by_empty_line("a\n\nb"), vec!["a", "b"]);
    assert_eq!(split_string_by_empty_line("one"), vec!["one"]);
    assert_eq!(split_string_by_empty_line("a\r\nx\r\n\r\nb"), vec!["a\r\nx", "b"]);
    assert_eq!(split_string_by_empty_line(""), vec![""]);
}

#[test]
fn decimal_numerals() {
    assert_eq!(u64_to_string(0), "0");
    assert_eq!(u64_to_string(907), "907");
    assert_eq!(i64_to_string(-45), "-45");
    assert_eq!(i64_to_string(0), "0");
}

#[test]
fn decimal_parsing() {
    assert_eq!(parse_i32("12240"), Some(12240));
    assert_eq!(parse_i32("-7"), Some(-7));
    assert_eq!(parse_i32("+9"), Some(9));
    assert_eq!(parse_i32(""), None);
    assert_eq!(parse_i32("12x"), None);
    assert_eq!(parse_i32("2147483647"), Some(2147483647));
    assert_eq!(parse_i32("2147483648"), None);
    assert_eq!(parse_i32("-2147483648"), Some(-2147483648));
    assert_eq!(parse_u64("42"), Some(42));
    assert_eq!(parse_u64("abc"), None);
}

#[test]
fn pixel_to_drawing_units() {
    assert_eq!(pixels_to_word_emu(72), 914400 + 2540);
    assert_eq!(pixels_to_word_emu(0), 2540);
    assert_eq!(pixels_to_word_emu(100), 100 * 914400 / 72 + 2540);
}

#[test]
fn placeholder_parsing_finds_helpers() {
    let phs = parse_template_placeholders("Intro {{table tbl}} outro");
    assert_eq!(phs.len(), 1);
    assert_eq!(phs[0].helper_name.as_deref(), Some("table"));
    assert_eq!(phs[0].expression, "tbl");
    assert_eq!(phs[0].start_position, 6);
    assert_eq!(phs[0].end_position, 19);
}

#[test]
fn placeholder_parsing_without_helper() {
    let phs = parse_template_placeholders("{{name}}");
    assert_eq!(phs.len(), 1);
    assert!(phs[0].helper_name.is_none());
    assert_eq!(phs[0].expression, "name");
}

#[test]
fn placeholder_parsing_in_order() {
    let phs = parse_template_placeholders("{{markdown a}} mid {{jupyter b}}");
    assert_eq!(phs.len(), 2);
    assert_eq!(phs[0].helper_name.as_deref(), Some("markdown"));
    assert_eq!(phs[0].expression, "a");
    assert_eq!(phs[1].helper_name.as_deref(), Some("jupyter"));
    assert_eq!(phs[1].expression, "b");
    assert!(phs[0].end_position <= phs[1].start_position);
}

#[test]
fn template_areas_bound_the_paragraph() {
    let xml = "<?xml version=\"1.0\"?>\
        <w:document xmlns:w=\"http://schemas.openxmlformats.org/wordprocessingml/2006/main\">\
        <w:body><w:p><w:r><w:t>{{name}}</w:t></w:r></w:p></w:body></w:document>";
    let tokens = textkit_docx::parse::xml_to_token_vec(xml).unwrap();
    let areas = textkit_docx::parse::find_template_areas(&tokens, "p");
    assert_eq!(areas.len(), 1);
    let area = &areas[0];
    let start = area.context_start_index.unwrap();
    let end = area.context_end_index.unwrap();
    assert!(start <= area.token_index && area.token_index <= end);
    let contexts = textkit_docx::parse::find_template_token_context(&tokens, "p");
    assert_eq!(contexts.len(), 1);
    assert_eq!(contexts[0].context_start_index, Some(start));
    assert_eq!(contexts[0].context_end_index, Some(end));
    assert_eq!(contexts[0].token_index, area.token_index);
}
