use mdhtml::convert_document;
use mdhtml::json::front_matter_json;
use mdhtml::ConvertError;
use mdhtml::FrontMatter;

#[test]
fn json_output_is_exact() {
    let input = "---\ntitle: \"Test\"\ndate: \"2024-01-01\"\ntags: [\"a\",\"b\"]\n---\n# Hello\n";
    let out = convert_document(input).unwrap();
    let expected = "{\n  \"title\": \"Test\",\n  \"date\": \"2024-01-01\",\n  \"categories\": [],\n  \"tags\": [\n    \"a\",\n    \"b\"\n  ]\n}";
    assert_eq!(out.front_matter_json, expected);
}

#[test]
fn json_for_defaults() {
    let out = convert_document("no block here\n").unwrap();
    let expected = "{\n  \"title\": \"\",\n  \"date\": \"\",\n  \"categories\": [],\n  \"tags\": []\n}";
    assert_eq!(out.front_matter_json, expected);
}

#[test]
fn json_escapes_special_characters() {
    let fm = FrontMatter {
        title: "q\"\\\n\u{1}".to_string(),
        date: String::new(),
        categories: Vec::new(),
        tags: Vec::new(),
    };
    let text = front_matter_json(&fm);
    let expected = "{\n  \"title\": \"q\\\"\\\\\\n\\u0001\",\n  \"date\": \"\",\n  \"categories\": [],\n  \"tags\": []\n}";
    assert_eq!(text, expected);
}

#[test]
fn json_output_parses_back() {
    let input = "---\ntitle: \"A \\\"quoted\\\" one\"\ndate: \"2020-02-02\"\ncategories: [\"c\"]\ntags: [\"t1\",\"t2\"]\n---\nbody\n";
    let out = convert_document(input).unwrap();
    let v: serde_json::Value = serde_json::from_str(&out.front_matter_json).unwrap();
    assert_eq!(v["title"], "A \"quoted\" one");
    assert_eq!(v["date"], "2020-02-02");
    assert_eq!(v["categories"][0], "c");
    assert_eq!(v["tags"][0], "t1");
    assert_eq!(v["tags"][1], "t2");
}

#[test]
fn error_messages_name_the_stage() {
    assert_eq!(
        ConvertError::InvalidUtf8.message(),
        "input is not valid UTF-8"
    );
    assert_eq!(
        ConvertError::TagsType.message(),
        "front matter field tags must be a list of text"
    );
    assert_eq!(
        ConvertError::YamlSyntax.message(),
        "front matter is not valid YAML"
    );
}
