use kinesis_tools_rust::format::{display, document, format_record, JsonShape};
use kinesis_tools_rust::text::{decimal, trim};

#[test]
fn format_pretty_prints_an_object() {
    assert_eq!(format_record("{\"id\":1}".to_string()), "{\n  \"id\": 1\n}");
    assert_eq!(
        format_record(" {\"b\":[1,{\"c\":null}],\"a\":\"x\"}\n".to_string()),
        "{\n  \"a\": \"x\",\n  \"b\": [\n    1,\n    {\n      \"c\": null\n    }\n  ]\n}"
    );
}

#[test]
fn format_pretty_prints_other_documents() {
    assert_eq!(format_record("[1,2]".to_string()), "[\n  1,\n  2\n]");
    assert_eq!(format_record(" 12 ".to_string()), "12");
    assert_eq!(format_record("true".to_string()), "true");
    assert_eq!(format_record("null".to_string()), "null");
    assert_eq!(format_record("{}".to_string()), "{}");
}

#[test]
fn format_reads_json_that_is_encoded_twice() {
    assert_eq!(format_record("\"{\\\"id\\\":1}\"".to_string()), "{\n  \"id\": 1\n}");
    assert_eq!(format_record("\"[true]\"".to_string()), "[\n  true\n]");
    // one level deep only
    assert_eq!(format_record("\"\\\"5\\\"\"".to_string()), "\"5\"");
}

#[test]
fn format_falls_back_to_the_trimmed_text() {
    assert_eq!(format_record("hello world".to_string()), "hello world");
    assert_eq!(format_record("  hello world \n".to_string()), "hello world");
    assert_eq!(format_record("{\"id\":".to_string()), "{\"id\":");
    assert_eq!(format_record("".to_string()), "");
    assert_eq!(format_record(" \n\t ".to_string()), "");
    // a JSON string that holds no JSON
    assert_eq!(format_record(" \"hello\\u0021\" ".to_string()), "\"hello\\u0021\"");
}

#[test]
fn format_is_idempotent_on_pretty_text() {
    for text in ["{\"id\":1,\"tags\":[\"a\",\"b\"]}", "[1,[2,[3]]]", "{\"a\":{\"b\":{}}}"] {
        let once = format_record(text.to_string());
        let twice = format_record(once.clone());
        assert_eq!(twice, once);
    }
}

#[test]
fn format_gives_a_text_for_any_input() {
    for text in ["", "\u{0}", "\"", "\\", "{", "}", "\"\\ud800\"", "1e999", "\u{feff}{}", "nul"] {
        let shown = format_record(text.to_string());
        assert_eq!(shown, text.trim());
    }
}

#[test]
fn document_picks_the_text_to_render() {
    assert_eq!(document("[1]", JsonShape::Structured), Some("[1]".to_string()));
    assert_eq!(document("\"[1]\"", JsonShape::Quoted("[1]".to_string())), Some("[1]".to_string()));
    assert_eq!(document("[1", JsonShape::Invalid), None);
}

#[test]
fn display_prefers_the_rendering() {
    assert_eq!(display(" [1] ", Some("[\n  1\n]".to_string())), "[\n  1\n]");
    assert_eq!(display(" [1 ", None), "[1");
}

#[test]
fn trim_drops_white_space_at_both_ends() {
    assert_eq!(trim("  a b  "), "a b");
    assert_eq!(trim("\t\r\n a\n"), "a");
    assert_eq!(trim("a"), "a");
    assert_eq!(trim(""), "");
    assert_eq!(trim(" \u{a0}\u{3000}\u{2028}"), "");
    assert_eq!(trim("\u{a0}\u{e9}t\u{e9}\u{3000}"), "\u{e9}t\u{e9}");
    // no white space: a zero width space, a control character
    assert_eq!(trim("\u{200b}a\u{1}"), "\u{200b}a\u{1}");
    for text in [" x", "x ", " \u{4e16} \u{754c} ", "\n\n", "\u{85}y\u{1680}"] {
        assert_eq!(trim(text), text.trim());
    }
}

#[test]
fn decimal_writes_numbers() {
    assert_eq!(decimal(0), "0");
    assert_eq!(decimal(7), "7");
    assert_eq!(decimal(10), "10");
    assert_eq!(decimal(12345), "12345");
    assert_eq!(decimal(1_000_000), "1000000");
    assert_eq!(decimal(usize::MAX), usize::MAX.to_string());
}
