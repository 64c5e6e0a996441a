use todo_labels::handlers::{all_label, create_label, delete_label, StatusCode};
use todo_labels::label_repository::LabelRepositoryForMemory;
use todo_labels::models::{CreateLabel, Label};
use todo_labels::repositories::{
    check_label_name_free, rows_affected_outcome, RepositoryError,
};
use todo_labels::validation::ValidatedJson;

#[test]
fn crud_scenario() {
    let mut repository = LabelRepositoryForMemory::new();
    let label_text = "test_label";

    // create
    let label = repository.create(label_text.to_string()).expect("[create] returned Err");
    assert_eq!(label.name, label_text);

    // all
    let labels = repository.all();
    let label = labels.last().unwrap();
    assert_eq!(label.name, label_text);

    // delete
    repository.delete(label.id).expect("[delete] returned Err");
}

#[test]
fn label_crud_scenario() {
    let text = "label text".to_string();
    let id = 1;
    let expected = Label::new(id, text.clone());

    // create
    let mut repository = LabelRepositoryForMemory::new();
    let label = repository.create(text.clone()).expect("failed label create");
    assert_eq!(expected, label);

    // all
    let label = repository.all();
    assert_eq!(vec![expected], label);

    // delete
    let res = repository.delete(id);
    assert!(res.is_ok())
}

#[test]
fn duplicate_name_returns_stored_label() {
    let mut repository = LabelRepositoryForMemory::new();
    let first = repository.create("work".to_string()).unwrap();
    repository.create("home".to_string()).unwrap();
    let again = repository.create("work".to_string()).unwrap();
    assert_eq!(first, again);
    assert_eq!(repository.all().len(), 2);
}

#[test]
fn delete_missing_label_is_not_found() {
    let mut repository = LabelRepositoryForMemory::new();
    assert_eq!(repository.delete(3), Err(RepositoryError::NotFound(3)));
}

#[test]
fn label_handlers_map_statuses() {
    let mut repository = LabelRepositoryForMemory::new();
    let payload = ValidatedJson::from_parsed(Ok(CreateLabel::new("x".to_string()))).unwrap();
    let (status, label) = create_label(payload, &mut repository).unwrap();
    assert_eq!(status, StatusCode::Created);
    assert_eq!(label, Label::new(1, "x".to_string()));
    let (status, labels) = all_label(&repository).unwrap();
    assert_eq!(status, StatusCode::Success);
    assert_eq!(labels, vec![Label::new(1, "x".to_string())]);
    assert_eq!(delete_label(1, &mut repository), StatusCode::NoContent);
    assert_eq!(delete_label(1, &mut repository), StatusCode::NotFound);
}

#[test]
fn stored_name_blocks_database_insert() {
    let existing = Some(Label::new(5, "dup".to_string()));
    assert_eq!(check_label_name_free(&existing), Err(RepositoryError::Duplicate(5)));
    assert_eq!(check_label_name_free(&None), Ok(()));
}

#[test]
fn database_row_counts_map_to_not_found() {
    assert_eq!(rows_affected_outcome(8, 0), Err(RepositoryError::NotFound(8)));
    assert_eq!(rows_affected_outcome(8, 1), Ok(()));
}
