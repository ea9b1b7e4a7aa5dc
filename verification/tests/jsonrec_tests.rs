use panw_api_ollama::jsonrec::{encode_chat_record, encode_error_record, encode_generate_record, json_escape};

#[test]
fn plain_chat_record() {
    let r = encode_chat_record("m", "2025-01-01T00:00:00Z", "assistant", "hi there", true);
    assert_eq!(
        r,
        "{\"model\":\"m\",\"created_at\":\"2025-01-01T00:00:00Z\",\"message\":{\"role\":\"assistant\",\"content\":\"hi there\"},\"done\":true}"
    );
}

#[test]
fn chat_record_parses_as_json() {
    let r = encode_chat_record("m", "t", "assistant", "line one\nline \"two\" \\ end", false);
    let v: serde_json::Value = serde_json::from_str(&r).unwrap();
    assert_eq!(v["message"]["content"].as_str().unwrap(), "line one\nline \"two\" \\ end");
    assert_eq!(v["done"].as_bool().unwrap(), false);
}

#[test]
fn generate_record_shape() {
    let r = encode_generate_record("g", "t0", "out", true);
    assert_eq!(r, "{\"model\":\"g\",\"created_at\":\"t0\",\"response\":\"out\",\"done\":true}");
}

#[test]
fn error_record_shape() {
    let r = encode_error_record("g", "boom");
    assert_eq!(r, "{\"model\":\"g\",\"error\":\"boom\",\"done\":true}");
}

#[test]
fn escaping_covers_quotes_backslashes_and_controls() {
    assert_eq!(json_escape("a\"b"), "a\\\"b");
    assert_eq!(json_escape("a\\b"), "a\\\\b");
    assert_eq!(json_escape("a\nb\tc\rd"), "a\\nb\\tc\\rd");
    assert_eq!(json_escape("\u{1}"), "\\u0001");
    assert_eq!(json_escape("\u{1f}"), "\\u001f");
    assert_eq!(json_escape("plain"), "plain");
}
