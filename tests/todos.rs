use todo_api::handlers::{
    all_label, all_todo, create_label, create_todo, delete_label, delete_todo, find_todo,
    respond, respond_empty, update_todo, CREATED, NOT_FOUND, NO_CONTENT, OK,
};
use todo_api::label_store::LabelRepositoryForMemory;
use todo_api::model::{CreateLabel, CreateTodo, Label, RepositoryError, Todo, UpdateTodo};
use todo_api::todo_store::TodoRepositoryForMemory;
use todo_api::validate::{
    check_length, validated_create_label, validated_create_todo, validated_update_todo, Field,
    Rejection, Violation, BAD_REQUEST, MAX_TEXT_LEN, UNPROCESSABLE_ENTITY,
};

fn store_with(texts: &[&str]) -> TodoRepositoryForMemory {
    let mut repo = TodoRepositoryForMemory::new();
    for t in texts {
        repo.create(CreateTodo::new(t.to_string())).expect("failed create todo");
    }
    repo
}

#[test]
fn should_created_todo() {
    let expected = Todo::new(1, "should_created_todo".to_string());
    let mut repo = TodoRepositoryForMemory::new();
    let payload = validated_create_todo(Some(CreateTodo::new("should_created_todo".to_string())))
        .expect("valid payload");
    let res = create_todo(&mut repo, payload);
    assert_eq!(res, Ok((CREATED, expected)));
}

#[test]
fn should_find_todo() {
    let expected = Todo::new(1, "should_find_todo".to_string());
    let repo = store_with(&["should_find_todo"]);
    assert_eq!(find_todo(&repo, 1), Ok((OK, expected)));
}

#[test]
fn should_get_all_todos() {
    let expected = Todo::new(1, "should_get_all_todos".to_string());
    let repo = store_with(&["should_get_all_todos"]);
    assert_eq!(all_todo(&repo), Ok((OK, vec![expected])));
}

#[test]
fn should_update_todo() {
    let expected = Todo::new(1, "should_update_todo".to_string());
    let mut repo = store_with(&["before_should_update_todo"]);
    let payload = validated_update_todo(Some(UpdateTodo::new(
        1,
        "should_update_todo".to_string(),
        false,
    )))
    .expect("valid payload");
    assert_eq!(update_todo(&mut repo, 1, payload), Ok((OK, expected)));
}

#[test]
fn should_delete_todo() {
    let mut repo = store_with(&["should_delete_todo"]);
    assert_eq!(NO_CONTENT, delete_todo(&mut repo, 1));
}

#[test]
fn deleted_todo_is_not_found_afterwards() {
    let mut repo = store_with(&["gone"]);
    assert_eq!(delete_todo(&mut repo, 1), 204);
    assert_eq!(find_todo(&repo, 1), Err(404));
}

#[test]
fn all_after_one_creation_lists_it() {
    let repo = store_with(&["x"]);
    let expected = Todo { id: 1, text: "x".to_string(), completed: false };
    assert_eq!(all_todo(&repo), Ok((200, vec![expected])));
}

#[test]
fn update_sets_completion_flag() {
    let mut repo = store_with(&["a", "b"]);
    let res = update_todo(&mut repo, 2, UpdateTodo::new(2, "b done".to_string(), true));
    let expected = Todo { id: 2, text: "b done".to_string(), completed: true };
    assert_eq!(res, Ok((200, expected.clone())));
    assert_eq!(repo.find(2), Ok(expected));
    assert_eq!(repo.find(1), Ok(Todo::new(1, "a".to_string())));
}

#[test]
fn create_then_find_returns_created() {
    let mut repo = store_with(&["first", "second"]);
    let created = repo.create(CreateTodo::new("third".to_string())).unwrap();
    assert_eq!(created, Todo::new(3, "third".to_string()));
    assert_eq!(repo.find(created.id), Ok(created));
}

#[test]
fn fresh_store_finds_updates_deletes_nothing() {
    let mut repo = TodoRepositoryForMemory::new();
    for id in [0, 1, 2, -1, i32::MAX, i32::MIN] {
        assert_eq!(repo.find(id), Err(RepositoryError::NotFound));
        let payload = UpdateTodo::new(id, "t".to_string(), false);
        assert_eq!(repo.update(id, payload), Err(RepositoryError::NotFound));
        assert_eq!(repo.delete(id), Err(RepositoryError::NotFound));
        assert_eq!(find_todo(&repo, id), Err(NOT_FOUND));
        assert_eq!(delete_todo(&mut repo, id), NOT_FOUND);
    }
    assert_eq!(repo.all(), Ok(vec![]));
}

#[test]
fn all_on_empty_store_is_empty() {
    let repo = TodoRepositoryForMemory::new();
    assert_eq!(repo.all(), Ok(Vec::new()));
    assert_eq!(all_todo(&repo), Ok((OK, Vec::new())));
}

#[test]
fn repeated_delete_keeps_failing() {
    let mut repo = store_with(&["a", "b"]);
    assert_eq!(repo.delete(1), Ok(()));
    assert_eq!(repo.delete(1), Err(RepositoryError::NotFound));
    assert_eq!(repo.delete(1), Err(RepositoryError::NotFound));
    assert_eq!(repo.all(), Ok(vec![Todo::new(2, "b".to_string())]));
}

#[test]
fn ids_are_not_reused_after_delete() {
    let mut repo = store_with(&["a", "b"]);
    assert_eq!(repo.delete(2), Ok(()));
    let created = repo.create(CreateTodo::new("c".to_string())).unwrap();
    assert_eq!(created.id, 3);
    let ids: Vec<i32> = repo.all().unwrap().iter().map(|t| t.id).collect();
    assert_eq!(ids, vec![1, 3]);
}

#[test]
fn update_of_missing_id_changes_nothing() {
    let mut repo = store_with(&["a"]);
    let res = update_todo(&mut repo, 5, UpdateTodo::new(5, "z".to_string(), true));
    assert_eq!(res, Err(404));
    assert_eq!(repo.all(), Ok(vec![Todo::new(1, "a".to_string())]));
}

#[test]
fn empty_text_is_rejected_with_422() {
    let res = validated_create_todo(Some(CreateTodo::new(String::new())));
    let rejection = res.unwrap_err();
    assert_eq!(rejection, Rejection::ValidationFailed(vec![Violation::Empty(Field::Text)]));
    assert_eq!(rejection.status(), UNPROCESSABLE_ENTITY);
    assert_eq!(rejection.status(), 422);
}

#[test]
fn empty_update_text_is_rejected() {
    let res = validated_update_todo(Some(UpdateTodo::new(1, String::new(), true)));
    assert_eq!(res, Err(Rejection::ValidationFailed(vec![Violation::Empty(Field::Text)])));
}

#[test]
fn empty_label_name_is_rejected() {
    let res = validated_create_label(Some(CreateLabel::new(String::new())));
    assert_eq!(res, Err(Rejection::ValidationFailed(vec![Violation::Empty(Field::Name)])));
}

#[test]
fn text_at_maximum_length_is_accepted() {
    let text = "a".repeat(MAX_TEXT_LEN);
    assert_eq!(MAX_TEXT_LEN, 100);
    let payload = validated_create_todo(Some(CreateTodo::new(text.clone()))).unwrap();
    let mut repo = TodoRepositoryForMemory::new();
    assert_eq!(create_todo(&mut repo, payload), Ok((201, Todo::new(1, text))));
}

#[test]
fn text_over_maximum_length_is_rejected() {
    let text = "a".repeat(MAX_TEXT_LEN + 1);
    let res = validated_create_todo(Some(CreateTodo::new(text)));
    assert_eq!(res, Err(Rejection::ValidationFailed(vec![Violation::TooLong(Field::Text)])));
}

#[test]
fn length_counts_characters_not_bytes() {
    let text = "é".repeat(MAX_TEXT_LEN);
    assert_eq!(check_length(Field::Text, &text), vec![]);
    let longer = "é".repeat(MAX_TEXT_LEN + 1);
    assert_eq!(check_length(Field::Name, &longer), vec![Violation::TooLong(Field::Name)]);
}

#[test]
fn single_character_is_accepted() {
    let res = validated_create_label(Some(CreateLabel::new("x".to_string())));
    assert_eq!(res, Ok(CreateLabel::new("x".to_string())));
}

#[test]
fn undecodable_body_is_rejected_with_400() {
    let res = validated_create_todo(None);
    assert_eq!(res, Err(Rejection::MalformedBody));
    assert_eq!(Rejection::MalformedBody.status(), BAD_REQUEST);
    assert_eq!(BAD_REQUEST, 400);
    assert_eq!(validated_update_todo(None), Err(Rejection::MalformedBody));
    assert_eq!(validated_create_label(None), Err(Rejection::MalformedBody));
}

#[test]
fn repository_failure_maps_to_404() {
    let failed: Result<Todo, RepositoryError> = Err(RepositoryError::NotFound);
    assert_eq!(respond(CREATED, failed), Err(404));
    assert_eq!(respond_empty(Err(RepositoryError::NotFound)), 404);
    assert_eq!(respond_empty(Ok(())), 204);
    assert_eq!(respond(OK, Ok(7u8)), Ok((200, 7u8)));
}

#[test]
fn labels_are_created_listed_and_deleted() {
    let mut repo = LabelRepositoryForMemory::new();
    let a = create_label(&mut repo, CreateLabel::new("urgent".to_string()));
    assert_eq!(a, Ok((201, Label::new(1, "urgent".to_string()))));
    let b = create_label(&mut repo, CreateLabel::new("home".to_string()));
    assert_eq!(b, Ok((201, Label::new(2, "home".to_string()))));
    assert_eq!(
        all_label(&repo),
        Ok((200, vec![Label::new(1, "urgent".to_string()), Label::new(2, "home".to_string())]))
    );
    assert_eq!(delete_label(&mut repo, 1), 204);
    assert_eq!(delete_label(&mut repo, 1), 404);
    assert_eq!(all_label(&repo), Ok((200, vec![Label::new(2, "home".to_string())])));
}

#[test]
fn label_store_starts_empty() {
    let mut repo = LabelRepositoryForMemory::new();
    assert_eq!(repo.all(), Ok(vec![]));
    assert_eq!(repo.delete(1), Err(RepositoryError::NotFound));
}
