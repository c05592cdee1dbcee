use mdhtml::convert_document;
use mdhtml::decode_document;
use mdhtml::ConvertError;

#[test]
fn no_front_matter_yields_defaults() {
    let out = convert_document("hello world\n").unwrap();
    assert_eq!(out.front_matter.title, "");
    assert_eq!(out.front_matter.date, "");
    assert!(out.front_matter.categories.is_empty());
    assert!(out.front_matter.tags.is_empty());
}

#[test]
fn plain_paragraph_round_trips() {
    let out = convert_document("hello world").unwrap();
    assert_eq!(out.html, "<p>hello world</p>\n");
}

#[test]
fn raw_html_passes_through_verbatim() {
    let out = convert_document("<div>x</div>").unwrap();
    assert!(out.html.contains("<div>x</div>"));
    assert!(!out.html.contains("&lt;div&gt;"));
}

#[test]
fn full_example_record_and_html() {
    let input = "---\ntitle: \"Test\"\ndate: \"2024-01-01\"\ntags: [\"a\",\"b\"]\n---\n# Hello\n";
    let out = convert_document(input).unwrap();
    assert_eq!(out.front_matter.title, "Test");
    assert_eq!(out.front_matter.date, "2024-01-01");
    assert_eq!(out.front_matter.tags, vec!["a".to_string(), "b".to_string()]);
    assert!(out.front_matter.categories.is_empty());
    assert_eq!(out.html, "<h1>Hello</h1>\n");
}

#[test]
fn html_never_holds_the_block() {
    let input = "---\ntitle: \"Test\"\ndate: \"2024-01-01\"\ntags: [\"a\",\"b\"]\n---\n# Hello\n";
    let out = convert_document(input).unwrap();
    assert!(!out.html.contains("---"));
    assert!(!out.html.contains("Test"));
    assert!(!out.html.contains("title"));
}

#[test]
fn omitted_fields_take_defaults() {
    let input = "---\ntitle: \"T\"\n---\nbody\n";
    let out = convert_document(input).unwrap();
    assert_eq!(out.front_matter.title, "T");
    assert_eq!(out.front_matter.date, "");
    assert!(out.front_matter.categories.is_empty());
    assert!(out.front_matter.tags.is_empty());
}

#[test]
fn categories_list_is_read() {
    let input = "---\ncategories: [\"c1\",\"c2\"]\n---\nbody\n";
    let out = convert_document(input).unwrap();
    assert_eq!(
        out.front_matter.categories,
        vec!["c1".to_string(), "c2".to_string()]
    );
}

#[test]
fn empty_block_yields_defaults() {
    let out = convert_document("---\n\n---\nbody\n").unwrap();
    assert_eq!(out.front_matter.title, "");
    assert!(out.front_matter.tags.is_empty());
    assert!(out.html.contains("body"));
}

#[test]
fn unclosed_block_is_all_body() {
    let out = convert_document("---\ntitle: x\n").unwrap();
    assert_eq!(out.front_matter.title, "");
    assert!(out.html.contains("title: x"));
}

#[test]
fn opening_line_must_be_exactly_dashes() {
    let out = convert_document("--- \ntitle: x\n---\nbody\n").unwrap();
    assert_eq!(out.front_matter.title, "");
}

#[test]
fn closing_line_must_end_with_a_newline() {
    let out = convert_document("---\ntitle: x\n---").unwrap();
    assert_eq!(out.front_matter.title, "");
}

#[test]
fn only_the_first_block_is_recognized() {
    let input = "---\ntitle: \"T\"\n---\nmiddle\n---\nother: y\n---\n";
    let out = convert_document(input).unwrap();
    assert_eq!(out.front_matter.title, "T");
    assert!(out.html.contains("middle"));
}

#[test]
fn yaml_syntax_error_is_reported() {
    let r = convert_document("---\na: [\n---\nbody\n");
    assert_eq!(r.err(), Some(ConvertError::YamlSyntax));
}

#[test]
fn scalar_document_is_not_a_mapping() {
    let r = convert_document("---\njust a scalar\n---\nbody\n");
    assert_eq!(r.err(), Some(ConvertError::NotAMapping));
}

#[test]
fn list_valued_title_is_a_type_error() {
    let r = convert_document("---\ntitle: [\"x\"]\n---\nbody\n");
    assert_eq!(r.err(), Some(ConvertError::TitleType));
}

#[test]
fn list_valued_date_is_a_type_error() {
    let r = convert_document("---\ndate: [1]\n---\nbody\n");
    assert_eq!(r.err(), Some(ConvertError::DateType));
}

#[test]
fn text_valued_categories_is_a_type_error() {
    let r = convert_document("---\ncategories: \"x\"\n---\nbody\n");
    assert_eq!(r.err(), Some(ConvertError::CategoriesType));
}

#[test]
fn text_valued_tags_is_a_type_error() {
    let r = convert_document("---\ntags: hello\n---\nbody\n");
    assert_eq!(r.err(), Some(ConvertError::TagsType));
}

#[test]
fn tags_with_a_non_text_element_are_a_type_error() {
    let r = convert_document("---\ntags: [1, \"a\"]\n---\nbody\n");
    assert_eq!(r.err(), Some(ConvertError::TagsType));
}

#[test]
fn crlf_delimiter_lines_are_not_recognized() {
    let out = convert_document("---\r\ntitle: x\r\n---\r\nbody\r\n").unwrap();
    assert_eq!(out.front_matter.title, "");
    assert!(out.html.contains("title: x"));
}

#[test]
fn oversized_front_matter_is_rejected() {
    let content = "#".repeat(mdhtml::yaml::MAX_FRONT_MATTER_LEN + 1);
    let input = format!("---\n{}\n---\nbody\n", content);
    let r = convert_document(&input);
    assert_eq!(r.err(), Some(ConvertError::YamlSyntax));
}

#[test]
fn front_matter_at_the_size_bound_parses() {
    let content = "#".repeat(mdhtml::yaml::MAX_FRONT_MATTER_LEN);
    let input = format!("---\n{}\n---\nbody\n", content);
    let out = convert_document(&input).unwrap();
    assert_eq!(out.front_matter.title, "");
    assert!(out.html.contains("body"));
}

#[test]
fn invalid_utf8_fails_to_decode() {
    let r = decode_document(&[0xff, 0xfe, 0x00]);
    assert_eq!(r.err(), Some(ConvertError::InvalidUtf8));
}

#[test]
fn valid_utf8_decodes() {
    let r = decode_document("caf\u{e9}".as_bytes());
    assert_eq!(r.unwrap(), "caf\u{e9}");
}
