use todo_labels::handlers::{
    all_todo, create_todo, delete_todo, find_todo, update_todo, StatusCode,
};
use todo_labels::models::{CreateTodo, Todo, UpdateTodo};
use todo_labels::repositories::{RepositoryError, TodoRepository};
use todo_labels::todo_repository::TodoRepositoryForMemory;
use todo_labels::validation::ValidatedJson;

fn validated_create(text: &str) -> ValidatedJson<CreateTodo> {
    ValidatedJson::from_parsed(Ok(CreateTodo::new(text.to_string()))).expect("valid payload")
}

#[test]
fn should_created_todo() {
    let expected = Todo::new(1, "test".to_string());

    let mut repository = TodoRepositoryForMemory::new();
    let (status, todo) = create_todo(validated_create("test"), &mut repository).unwrap();
    assert_eq!(status, StatusCode::Created);
    assert_eq!(status.as_u16(), 201);
    assert_eq!(todo, expected);
}

#[test]
fn should_find_todo() {
    let expected = Todo::new(1, "test".to_string());

    let mut repository = TodoRepositoryForMemory::new();
    repository.create(CreateTodo::new("test".to_string())).expect("cannot create todo");
    let (status, todo) = find_todo(1, &repository).unwrap();
    assert_eq!(status.as_u16(), 200);
    assert_eq!(todo, expected);
}

#[test]
fn should_get_all_todos() {
    let expected = Todo::new(1, "test".to_string());

    let mut repository = TodoRepositoryForMemory::new();
    repository.create(CreateTodo::new("test".to_string())).expect("cannot create todo");
    let (status, todos) = all_todo(&repository).unwrap();
    assert_eq!(status.as_u16(), 200);
    assert_eq!(todos.len(), 1);
    assert_eq!(todos[0], expected);
}

#[test]
fn should_update_todo() {
    let expected = Todo::new(1, "updated".to_string());

    let mut repository = TodoRepositoryForMemory::new();
    repository.create(CreateTodo::new("test".to_string())).expect("cannot create todo");
    let payload = ValidatedJson::from_parsed(Ok(UpdateTodo::new(1, "updated".to_string(), false)))
        .expect("valid payload");
    let (status, todo) = update_todo(1, payload, &mut repository).unwrap();
    assert_eq!(status.as_u16(), 202);
    assert_eq!(todo, expected);
}

#[test]
fn should_delete_todo() {
    let mut repository = TodoRepositoryForMemory::new();
    repository.create(CreateTodo::new("test".to_string())).expect("cannot create todo");
    let status = delete_todo(1, &mut repository);
    assert_eq!(StatusCode::NoContent, status);
    assert_eq!(status.as_u16(), 204);
}

#[test]
fn get_after_delete_is_not_found() {
    let mut repository = TodoRepositoryForMemory::new();
    repository.create(CreateTodo::new("test".to_string())).unwrap();
    assert_eq!(delete_todo(1, &mut repository), StatusCode::NoContent);
    let res = find_todo(1, &repository);
    assert_eq!(res, Err(StatusCode::NotFound));
    assert_eq!(StatusCode::NotFound.as_u16(), 404);
}

#[test]
fn list_of_empty_store_is_empty() {
    let repository = TodoRepositoryForMemory::new();
    let (status, todos) = all_todo(&repository).unwrap();
    assert_eq!(status, StatusCode::Success);
    assert!(todos.is_empty());
}

#[test]
fn update_and_delete_of_missing_todo_are_not_found() {
    let mut repository = TodoRepositoryForMemory::new();
    let payload = ValidatedJson::from_parsed(Ok(UpdateTodo::new(7, "x".to_string(), true))).unwrap();
    assert_eq!(update_todo(7, payload, &mut repository), Err(StatusCode::NotFound));
    assert_eq!(delete_todo(7, &mut repository), StatusCode::NotFound);
}

#[test]
fn find_twice_gives_identical_records() {
    let mut repository = TodoRepositoryForMemory::new();
    repository.create(CreateTodo::new("a".to_string())).unwrap();
    repository.create(CreateTodo::new("b".to_string())).unwrap();
    let first = repository.find(2).unwrap();
    let second = repository.find(2).unwrap();
    assert_eq!(first, second);
    assert_eq!(first, Todo::new(2, "b".to_string()));
}

#[test]
fn sequential_creates_issue_ids_one_to_n() {
    let mut repository = TodoRepositoryForMemory::new();
    for n in 1..=5 {
        let todo = repository.create(CreateTodo::new(format!("t{}", n))).unwrap();
        assert_eq!(todo.id, n);
    }
    let ids: Vec<i32> = repository.all().iter().map(|t| t.id).collect();
    assert_eq!(ids, vec![1, 2, 3, 4, 5]);
}

#[test]
fn ids_are_not_reused_after_delete() {
    let mut repository = TodoRepositoryForMemory::new();
    repository.create(CreateTodo::new("a".to_string())).unwrap();
    repository.create(CreateTodo::new("b".to_string())).unwrap();
    repository.delete(1).unwrap();
    let c = repository.create(CreateTodo::new("c".to_string())).unwrap();
    assert_eq!(c.id, 3);
    let ids: Vec<i32> = repository.all().iter().map(|t| t.id).collect();
    assert_eq!(ids, vec![2, 3]);
}

#[test]
fn missing_id_is_not_found_for_find_update_delete() {
    let mut repository = TodoRepositoryForMemory::new();
    repository.create(CreateTodo::new("a".to_string())).unwrap();
    assert_eq!(repository.find(42), Err(RepositoryError::NotFound(42)));
    assert_eq!(
        repository.update(42, UpdateTodo::new(42, "z".to_string(), true)),
        Err(RepositoryError::NotFound(42))
    );
    assert_eq!(repository.delete(42), Err(RepositoryError::NotFound(42)));
    assert_eq!(repository.all().len(), 1);
}

#[test]
fn create_then_find_round_trip() {
    let mut repository = TodoRepositoryForMemory::new();
    let created = repository.create(CreateTodo::new("round".to_string())).unwrap();
    let found = repository.find(created.id).unwrap();
    assert_eq!(created, found);
    assert!(!found.completed);
}

#[test]
fn update_replaces_text_and_completion_and_keeps_path_id() {
    let mut repository = TodoRepositoryForMemory::new();
    repository.create(CreateTodo::new("a".to_string())).unwrap();
    let todo = repository.update(1, UpdateTodo::new(99, "done".to_string(), true)).unwrap();
    assert_eq!(todo, Todo { id: 1, text: "done".to_string(), completed: true });
    assert_eq!(repository.find(1).unwrap(), todo);
}

#[test]
fn trait_methods_match_inherent_ones() {
    let mut repository = TodoRepositoryForMemory::new();
    let t = TodoRepository::create(&mut repository, CreateTodo::new("a".to_string())).unwrap();
    assert_eq!(TodoRepository::find(&repository, 1), Ok(t.clone()));
    assert_eq!(TodoRepository::all(&repository), Ok(vec![t]));
    assert_eq!(TodoRepository::delete(&mut repository, 1), Ok(()));
    assert_eq!(TodoRepository::delete(&mut repository, 1), Err(RepositoryError::NotFound(1)));
}
