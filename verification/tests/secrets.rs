use athenaeum::secrets::{
    required_json_string_field, required_secret_string_field, SecretFieldError,
};

#[test]
fn reads_a_named_required_field() {
    let field = required_json_string_field(r#"{ "token": "bot-token" }"#, "token")
        .expect("fixture should contain a token");

    assert_eq!(field, "bot-token");
}

#[test]
fn rejects_noncanonical_or_missing_required_fields() {
    assert!(required_json_string_field(r#"{ "key": "value" }"#, "token").is_err());
    assert!(required_json_string_field(r#"{ "token": " " }"#, "token").is_err());
    assert!(required_json_string_field(r#""{\\"token\\":\\"value\\"}""#, "token").is_err());
}

#[test]
fn keeps_surrounding_whitespace_of_a_non_blank_value() {
    let field = required_json_string_field(r#"{ "token": " a\t" }"#, "token")
        .expect("a value with text is not blank");

    assert_eq!(field, " a\t");
}

#[test]
fn classifies_secret_errors() {
    assert!(matches!(
        required_json_string_field("not json", "token"),
        Err(SecretFieldError::NotJsonObject)
    ));
    assert!(matches!(
        required_json_string_field("[1, 2]", "token"),
        Err(SecretFieldError::NotJsonObject)
    ));
    let error = required_json_string_field(r#"{ "token": 5 }"#, "token")
        .expect_err("a number is not a string");
    assert_eq!(error.to_string(), "Secret is missing required non-blank token field");
    assert!(required_json_string_field("{ \"token\": \"\u{3000}\u{a0}\" }", "token").is_err());
    assert_eq!(
        required_json_string_field(r#"{ "token": "a", "token": "b" }"#, "token").expect("last wins"),
        "b"
    );
}

#[test]
fn rejects_a_secret_without_string_value() {
    let error = required_secret_string_field(None, "token").expect_err("no secret string");

    assert!(matches!(error, SecretFieldError::NoStringValue));
    assert_eq!(error.to_string(), "Secret has no string value");
    assert_eq!(
        required_secret_string_field(Some(r#"{ "token": "t" }"#), "token").expect("present"),
        "t"
    );
}

#[test]
fn reads_only_string_members_of_top_level_objects() {
    for secret in ["null", "true", "3.5", r#""token""#, r#"["token"]"#] {
        assert!(matches!(
            required_json_string_field(secret, "token"),
            Err(SecretFieldError::NotJsonObject)
        ));
    }
    for secret in [
        r#"{ "token": null }"#,
        r#"{ "token": true }"#,
        r#"{ "token": ["a"] }"#,
        r#"{ "token": { "inner": "a" } }"#,
    ] {
        assert!(matches!(
            required_json_string_field(secret, "token"),
            Err(SecretFieldError::MissingRequiredField(_))
        ));
    }
}
