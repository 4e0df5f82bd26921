use streamline_wasm_sdk::validate_topic_name;

#[test]
fn valid_simple_name() {
    assert!(validate_topic_name("orders").is_ok());
}

#[test]
fn valid_with_dots() {
    assert!(validate_topic_name("my.topic.name").is_ok());
}

#[test]
fn valid_with_underscores() {
    assert!(validate_topic_name("my_topic_name").is_ok());
}

#[test]
fn valid_with_hyphens() {
    assert!(validate_topic_name("my-topic-name").is_ok());
}

#[test]
fn valid_mixed_chars() {
    assert!(validate_topic_name("org.example.topic-v2_final").is_ok());
}

#[test]
fn valid_single_char() {
    assert!(validate_topic_name("a").is_ok());
}

#[test]
fn valid_max_length() {
    let name = "a".repeat(249);
    assert!(validate_topic_name(&name).is_ok());
}

#[test]
fn reject_empty() {
    let err = validate_topic_name("").unwrap_err();
    assert!(err.contains("empty"), "got: {err}");
}

#[test]
fn reject_exceeds_max_length() {
    let name = "a".repeat(250);
    let err = validate_topic_name(&name).unwrap_err();
    assert!(err.contains("249"), "got: {err}");
}

#[test]
fn reject_dot() {
    let err = validate_topic_name(".").unwrap_err();
    assert!(err.contains("'.'"), "got: {err}");
}

#[test]
fn reject_dotdot() {
    let err = validate_topic_name("..").unwrap_err();
    assert!(err.contains("'..'"), "got: {err}");
}

#[test]
fn reject_space() {
    let err = validate_topic_name("my topic").unwrap_err();
    assert!(err.contains("invalid characters"), "got: {err}");
}

#[test]
fn reject_slash() {
    let err = validate_topic_name("my/topic").unwrap_err();
    assert!(err.contains("invalid characters"), "got: {err}");
}

#[test]
fn reject_colon() {
    let err = validate_topic_name("my:topic").unwrap_err();
    assert!(err.contains("invalid characters"), "got: {err}");
}

#[test]
fn reject_unicode() {
    let err = validate_topic_name("topïc").unwrap_err();
    assert!(err.contains("invalid characters"), "got: {err}");
}

#[test]
fn reject_at_sign() {
    let err = validate_topic_name("user@topic").unwrap_err();
    assert!(err.contains("invalid characters"), "got: {err}");
}

#[test]
fn three_dots_is_valid() {
    assert!(validate_topic_name("...").is_ok());
}

#[test]
fn dot_prefixed_is_valid() {
    assert!(validate_topic_name(".hidden").is_ok());
}

#[test]
fn validation_error_messages_are_exact() {
    assert_eq!(validate_topic_name("").unwrap_err(), "Topic name must not be empty");
    assert_eq!(
        validate_topic_name(&"b".repeat(250)).unwrap_err(),
        "Topic name exceeds max length of 249"
    );
    assert_eq!(validate_topic_name("..").unwrap_err(), "Topic name must not be '.' or '..'");
    assert_eq!(
        validate_topic_name("a b").unwrap_err(),
        "Topic name contains invalid characters: a b"
    );
}

#[test]
fn validation_counts_bytes_not_characters() {
    // 125 two-byte characters are 250 bytes: the length check fires first.
    let name = "é".repeat(125);
    assert_eq!(
        validate_topic_name(&name).unwrap_err(),
        "Topic name exceeds max length of 249"
    );
    // 124 of them fit, and are then refused for their characters.
    let name = "é".repeat(124);
    assert!(validate_topic_name(&name).unwrap_err().contains("invalid characters"));
}
