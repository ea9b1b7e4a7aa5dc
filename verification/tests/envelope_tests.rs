use panw_api_ollama::types::Content;

#[test]
fn new_fails_when_everything_is_empty() {
    let r = Content::new(None, None, None, None);
    assert_eq!(r.unwrap_err(), "Content must have at least one field populated");
    let r = Content::new(Some(String::new()), Some(String::new()), None, None);
    assert!(r.is_err());
}

#[test]
fn new_keeps_the_given_fields() {
    let c = Content::new(Some("ask".to_string()), None, Some("code".to_string()), None).unwrap();
    assert_eq!(c.prompt.as_deref(), Some("ask"));
    assert_eq!(c.response, None);
    assert_eq!(c.code_prompt.as_deref(), Some("code"));
    assert_eq!(c.code_response, None);
    assert_eq!(c.context, None);
}

#[test]
fn builder_roundtrip() {
    let c = Content::builder()
        .with_response("answer".to_string())
        .with_code_response("print()".to_string())
        .build()
        .unwrap();
    assert_eq!(c.response.as_deref(), Some("answer"));
    assert_eq!(c.code_response.as_deref(), Some("print()"));
    assert_eq!(c.prompt, None);
    assert_eq!(c.code_prompt, None);
}

#[test]
fn builder_fails_on_empty_fields() {
    let r = Content::builder().with_prompt(String::new()).build();
    assert!(r.is_err());
}

#[test]
fn one_nonempty_field_suffices() {
    let c = Content::builder()
        .with_prompt(String::new())
        .with_code_prompt("x = 1".to_string())
        .build()
        .unwrap();
    assert_eq!(c.prompt.as_deref(), Some(""));
    assert_eq!(c.code_prompt.as_deref(), Some("x = 1"));
}
