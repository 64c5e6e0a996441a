use todo_labels::handlers::StatusCode;
use todo_labels::models::{CreateLabel, CreateTodo};
use todo_labels::validation::{Rejection, Validate, ValidatedJson};

#[test]
fn empty_label_name_is_rejected_with_diagnostic() {
    let res = ValidatedJson::from_parsed(Ok(CreateLabel::new(String::new())));
    let rejection = res.unwrap_err();
    assert_eq!(
        rejection,
        Rejection::ValidationFailed("validation error: [name: name is required]".to_string())
    );
    assert!(rejection.message().contains("name is required"));
    assert_eq!(rejection.status(), StatusCode::BadRequest);
    assert_eq!(rejection.status().as_u16(), 400);
}

#[test]
fn label_name_length_bounds() {
    let ok = ValidatedJson::from_parsed(Ok(CreateLabel::new("a".repeat(255))));
    assert_eq!(ok.unwrap().0, CreateLabel::new("a".repeat(255)));
    let too_long = ValidatedJson::from_parsed(Ok(CreateLabel::new("a".repeat(256))));
    assert_eq!(
        too_long.unwrap_err(),
        Rejection::ValidationFailed("validation error: [name: name is too long]".to_string())
    );
}

#[test]
fn label_name_length_counts_characters_not_bytes() {
    let name = "é".repeat(255);
    assert_eq!(name.len(), 510);
    assert_eq!(CreateLabel::new(name).validate(), Ok(()));
    assert_eq!(
        CreateLabel::new("é".repeat(256)).validate(),
        Err(vec!["name: name is too long".to_string()])
    );
}

#[test]
fn parse_failure_is_malformed_body() {
    let res = ValidatedJson::<CreateTodo>::from_parsed(Err("expected value at line 1".to_string()));
    let rejection = res.unwrap_err();
    assert_eq!(
        rejection,
        Rejection::MalformedBody("json parse error: expected value at line 1".to_string())
    );
    assert_eq!(rejection.status(), StatusCode::BadRequest);
}

#[test]
fn todo_payload_passes_gate_unchanged() {
    let v = ValidatedJson::from_parsed(Ok(CreateTodo::new("test".to_string()))).unwrap();
    assert_eq!(v.0, CreateTodo::new("test".to_string()));
}
