use todoql::document_id::DocumentId;
use todoql::todo_model::{Todo, TodoInput, Todoql};

fn text(value: &str) -> Option<String> {
    Some(value.to_string())
}

#[test]
fn from_input_keeps_the_name_and_the_timestamps() {
    let input = TodoInput {
        id: None,
        name: "buy milk".to_string(),
        created_at: text("2024-01-01"),
        updated_at: None,
    };
    let todo = Todo::from_input(input);
    assert_eq!(
        todo,
        Todo {
            id: None,
            name: "buy milk".to_string(),
            created_at: text("2024-01-01"),
            updated_at: None,
        }
    );
}

#[test]
fn from_input_drops_the_identifier_of_the_input() {
    let input = TodoInput {
        id: text("0123456789abcdef01234567"),
        name: "walk".to_string(),
        created_at: None,
        updated_at: text("2024-02-02"),
    };
    let todo = Todo::from_input(input);
    assert_eq!(todo.id, None);
    assert_eq!(todo.name, "walk");
    assert_eq!(todo.updated_at, text("2024-02-02"));
}

#[test]
fn to_view_writes_the_identifier_as_text() {
    let todo = Todo {
        id: Some(DocumentId::from_bytes([0x65, 0x92, 0, 0, 0, 0, 0, 0, 0, 0, 0, 0x2a])),
        name: "buy milk".to_string(),
        created_at: text("2024-01-01"),
        updated_at: None,
    };
    assert_eq!(
        todo.to_view(),
        Todoql {
            name: "buy milk".to_string(),
            id: text("65920000000000000000002a"),
            created_at: text("2024-01-01"),
            updated_at: None,
        }
    );
}

#[test]
fn to_view_of_an_unsaved_todo_has_no_identifier() {
    let todo = Todo { id: None, name: "draft".to_string(), created_at: None, updated_at: None };
    let view = todo.to_view();
    assert_eq!(view.id, None);
    assert_ne!(view.id, text(""));
    assert_eq!(view.name, "draft");
}

#[test]
fn to_view_keeps_an_empty_name_and_empty_timestamps() {
    let todo = Todo { id: None, name: String::new(), created_at: text(""), updated_at: text("") };
    let view = todo.to_view();
    assert_eq!(view.name, "");
    assert_eq!(view.created_at, text(""));
    assert_eq!(view.updated_at, text(""));
}

#[test]
fn clones_are_equal_to_what_they_copy() {
    let todo = Todo {
        id: Some(DocumentId::from_bytes([7; 12])),
        name: "copy".to_string(),
        created_at: text("a"),
        updated_at: None,
    };
    assert_eq!(todo.clone(), todo);
    let input = TodoInput {
        id: text("x"),
        name: "copy".to_string(),
        created_at: None,
        updated_at: text("b"),
    };
    assert_eq!(input.clone(), input);
    let view = todo.clone().to_view();
    assert_eq!(view.clone(), view);
}
