use webscraper::extractor::{description_from, extract, join_text, title_from, ExtractionResult};

fn metadata(title: &str, description: &str) -> ExtractionResult {
    ExtractionResult { title: title.to_string(), description: description.to_string() }
}

fn strings(pieces: &[&str]) -> Vec<String> {
    pieces.iter().map(|piece| piece.to_string()).collect()
}

#[test]
fn title_and_description_are_found() {
    let html = "<html><head><title>Example</title><meta name=\"description\" content=\"An example page\"></head></html>";
    assert_eq!(extract(html), metadata("Example", "An example page"));
}

#[test]
fn a_page_without_metadata_has_empty_fields() {
    assert_eq!(extract("<html><body><p>Hello</p></body></html>"), metadata("", ""));
}

#[test]
fn the_empty_document_has_empty_fields() {
    assert_eq!(extract(""), metadata("", ""));
}

#[test]
fn text_that_is_no_markup_has_empty_fields() {
    assert_eq!(extract("just some words, no tags"), metadata("", ""));
}

#[test]
fn empty_result_has_empty_fields() {
    assert_eq!(ExtractionResult::empty(), metadata("", ""));
}

#[test]
fn the_first_title_wins() {
    let html = "<html><head><title>First</title><title>Second</title></head></html>";
    assert_eq!(extract(html).title, "First");
}

#[test]
fn the_first_description_wins() {
    let html = "<meta name=\"description\" content=\"one\"><meta name=\"description\" content=\"two\">";
    assert_eq!(extract(html).description, "one");
}

#[test]
fn a_description_without_content_is_empty() {
    assert_eq!(extract("<head><meta name=\"description\"></head>").description, "");
}

#[test]
fn a_first_description_without_content_hides_a_later_one() {
    let html = "<meta name=\"description\"><meta name=\"description\" content=\"later\">";
    assert_eq!(extract(html).description, "");
}

#[test]
fn an_empty_content_is_an_empty_description() {
    assert_eq!(extract("<meta name=\"description\" content=\"\">").description, "");
}

#[test]
fn other_meta_elements_do_not_count() {
    let html = "<meta name=\"keywords\" content=\"a, b\"><meta charset=\"utf-8\"><meta property=\"og:description\" content=\"og\">";
    assert_eq!(extract(html), metadata("", ""));
}

#[test]
fn a_meta_element_before_the_description_is_passed_over() {
    let html = "<meta name=\"keywords\" content=\"a, b\"><meta name=\"description\" content=\"found\">";
    assert_eq!(extract(html).description, "found");
}

#[test]
fn the_name_is_matched_exactly() {
    assert_eq!(extract("<meta name=\"Description\" content=\"x\">").description, "");
    assert_eq!(extract("<meta name=\"description \" content=\"x\">").description, "");
}

#[test]
fn tag_and_attribute_names_are_read_in_any_case() {
    let html = "<TITLE>Loud</TITLE><META NAME=\"description\" CONTENT=\"Shouted\">";
    assert_eq!(extract(html), metadata("Loud", "Shouted"));
}

#[test]
fn character_references_in_a_title_are_text() {
    assert_eq!(extract("<title>Tom &amp; Jerry &lt;3</title>").title, "Tom & Jerry <3");
}

#[test]
fn markup_in_a_title_is_text() {
    assert_eq!(extract("<title>a <b>bold</b> claim</title>").title, "a <b>bold</b> claim");
}

#[test]
fn white_space_in_a_title_is_kept() {
    assert_eq!(extract("<title>  spaced out </title>").title, "  spaced out ");
}

#[test]
fn an_empty_title_is_empty() {
    assert_eq!(extract("<title></title><title>late</title>").title, "");
}

#[test]
fn an_unclosed_title_runs_to_the_end() {
    assert_eq!(extract("<html><head><title>Unclosed").title, "Unclosed");
}

#[test]
fn a_title_in_the_body_is_found() {
    assert_eq!(extract("<body><p>text</p><title>Late</title></body>").title, "Late");
}

#[test]
fn nested_markup_is_stripped_from_a_title() {
    let html = "<body><svg><title>Shape <b>in bold</b> here</title></svg></body>";
    assert_eq!(extract(html).title, "Shape in bold here");
}

#[test]
fn description_content_is_unescaped() {
    let html = "<meta name=\"description\" content=\"Fish &amp; chips\">";
    assert_eq!(extract(html).description, "Fish & chips");
}

#[test]
fn single_quotes_and_no_quotes_are_read() {
    assert_eq!(extract("<meta name='description' content='quoted'>").description, "quoted");
    assert_eq!(extract("<meta name=description content=bare>").description, "bare");
}

#[test]
fn the_order_of_attributes_does_not_matter() {
    assert_eq!(extract("<meta content=\"first\" name=\"description\">").description, "first");
}

#[test]
fn title_and_description_do_not_depend_on_each_other() {
    assert_eq!(extract("<title>Only title</title>"), metadata("Only title", ""));
    assert_eq!(extract("<meta name=\"description\" content=\"Only this\">"), metadata("", "Only this"));
}

#[test]
fn join_text_joins_in_order() {
    assert_eq!(join_text(&strings(&[])), "");
    assert_eq!(join_text(&strings(&["one"])), "one");
    assert_eq!(join_text(&strings(&["Exa", "", "mple"])), "Example");
}

#[test]
fn title_from_takes_the_first_match() {
    assert_eq!(title_from(&None), "");
    assert_eq!(title_from(&Some(vec![])), "");
    assert_eq!(title_from(&Some(vec![strings(&[])])), "");
    assert_eq!(title_from(&Some(vec![strings(&["Only"])])), "Only");
    assert_eq!(title_from(&Some(vec![strings(&["Fi", "rst"]), strings(&["Second"])])), "First");
    assert_eq!(title_from(&Some(vec![strings(&[]), strings(&["Second"])])), "");
}

#[test]
fn description_from_takes_the_first_match() {
    assert_eq!(description_from(&None), "");
    assert_eq!(description_from(&Some(vec![])), "");
    assert_eq!(description_from(&Some(vec![None])), "");
    assert_eq!(description_from(&Some(vec![Some("X".to_string())])), "X");
    assert_eq!(description_from(&Some(vec![Some("X".to_string()), Some("Y".to_string())])), "X");
    assert_eq!(description_from(&Some(vec![None, Some("Y".to_string())])), "");
}

#[test]
fn three_times_the_parse_limit_fits_the_parser_buffers() {
    let limit = webscraper::extractor::PARSE_LIMIT as u64;
    assert_eq!(limit, (1u64 << 30) / 3);
    assert!(3 * limit <= 1u64 << 30);
    assert!(3 * (limit + 1) > 1u64 << 30);
}

#[test]
fn a_document_full_of_nul_bytes_is_parsed() {
    let html = format!("<title>{}</title>", "\0".repeat(100_000));
    assert_eq!(extract(&html).title, "\u{FFFD}".repeat(100_000));
}
