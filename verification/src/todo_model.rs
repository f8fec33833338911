//! The to-do entity as it is stored, the form it is created from and the
//! form it is shown in, with the two conversions between them.

use vstd::prelude::*;
use crate::document_id::{hex_string, DocumentId};

verus! {

/// What a stored to-do holds: the identifier, once the store has assigned
/// one, the name, and two optional timestamps kept as text.
pub struct TodoModel {
    pub id: Option<Seq<u8>>,
    pub name: Seq<char>,
    pub created_at: Option<Seq<char>>,
    pub updated_at: Option<Seq<char>>,
}

/// What a creation request holds.
pub struct TodoInputModel {
    pub id: Option<Seq<char>>,
    pub name: Seq<char>,
    pub created_at: Option<Seq<char>>,
    pub updated_at: Option<Seq<char>>,
}

/// What a to-do shows to the outside: as the stored one, the identifier
/// as text.
pub struct TodoqlModel {
    pub name: Seq<char>,
    pub id: Option<Seq<char>>,
    pub created_at: Option<Seq<char>>,
    pub updated_at: Option<Seq<char>>,
}

/// The entity that a creation request asks for. The identifier of the
/// request is dropped: only the store assigns one.
pub open spec fn todo_of_input(input: TodoInputModel) -> TodoModel {
    TodoModel {
        id: None,
        name: input.name,
        created_at: input.created_at,
        updated_at: input.updated_at,
    }
}

/// The text of an identifier that may be absent. An absent identifier has
/// no text, which differs from the empty text.
pub open spec fn hex_of_id(id: Option<Seq<u8>>) -> Option<Seq<char>> {
    match id {
        Some(bytes) => Some(hex_string(bytes)),
        None => None,
    }
}

/// The outside form of an entity.
pub open spec fn todoql_of_todo(todo: TodoModel) -> TodoqlModel {
    TodoqlModel {
        name: todo.name,
        id: hex_of_id(todo.id),
        created_at: todo.created_at,
        updated_at: todo.updated_at,
    }
}

/// The outside forms of a sequence of entities, in the same order.
pub open spec fn todoqls_of_todos(todos: Seq<TodoModel>) -> Seq<TodoqlModel> {
    todos.map_values(|todo: TodoModel| todoql_of_todo(todo))
}

/// The identifier of an entity as plain bytes.
pub open spec fn id_bytes(id: Option<DocumentId>) -> Option<Seq<u8>> {
    match id {
        Some(id) => Some(id@),
        None => None,
    }
}

/// The models of a sequence of entities.
pub open spec fn todo_models(todos: Seq<Todo>) -> Seq<TodoModel> {
    todos.map_values(|todo: Todo| todo@)
}

/// The models of a sequence of outside forms.
pub open spec fn todoql_models(todos: Seq<Todoql>) -> Seq<TodoqlModel> {
    todos.map_values(|todo: Todoql| todo@)
}

/// A to-do as the store keeps it.
#[derive(Debug, PartialEq, Eq)]
pub struct Todo {
    pub id: Option<DocumentId>,
    pub name: String,
    pub created_at: Option<String>,
    pub updated_at: Option<String>,
}

/// The input of a creation.
#[derive(Debug, PartialEq, Eq)]
pub struct TodoInput {
    pub id: Option<String>,
    pub name: String,
    pub created_at: Option<String>,
    pub updated_at: Option<String>,
}

/// A to-do as the API returns it.
#[derive(Debug, PartialEq, Eq)]
pub struct Todoql {
    pub name: String,
    pub id: Option<String>,
    pub created_at: Option<String>,
    pub updated_at: Option<String>,
}

impl View for Todo {
    type V = TodoModel;

    open spec fn view(&self) -> TodoModel {
        TodoModel {
            id: id_bytes(self.id),
            name: self.name@,
            created_at: self.created_at.deep_view(),
            updated_at: self.updated_at.deep_view(),
        }
    }
}

impl View for TodoInput {
    type V = TodoInputModel;

    open spec fn view(&self) -> TodoInputModel {
        TodoInputModel {
            id: self.id.deep_view(),
            name: self.name@,
            created_at: self.created_at.deep_view(),
            updated_at: self.updated_at.deep_view(),
        }
    }
}

impl View for Todoql {
    type V = TodoqlModel;

    open spec fn view(&self) -> TodoqlModel {
        TodoqlModel {
            name: self.name@,
            id: self.id.deep_view(),
            created_at: self.created_at.deep_view(),
            updated_at: self.updated_at.deep_view(),
        }
    }
}

/// A copy of a text that may be absent.
fn clone_text(text: &Option<String>) -> (copy: Option<String>)
    ensures
        copy.deep_view() == text.deep_view(),
{
    match text {
        Some(text) => Some(text.clone()),
        None => None,
    }
}

impl Clone for Todo {
    fn clone(&self) -> (copy: Todo)
        ensures
            copy@ == self@,
    {
        Todo {
            id: self.id,
            name: self.name.clone(),
            created_at: clone_text(&self.created_at),
            updated_at: clone_text(&self.updated_at),
        }
    }
}

impl Clone for TodoInput {
    fn clone(&self) -> (copy: TodoInput)
        ensures
            copy@ == self@,
    {
        TodoInput {
            id: clone_text(&self.id),
            name: self.name.clone(),
            created_at: clone_text(&self.created_at),
            updated_at: clone_text(&self.updated_at),
        }
    }
}

impl Clone for Todoql {
    fn clone(&self) -> (copy: Todoql)
        ensures
            copy@ == self@,
    {
        Todoql {
            name: self.name.clone(),
            id: clone_text(&self.id),
            created_at: clone_text(&self.created_at),
            updated_at: clone_text(&self.updated_at),
        }
    }
}

impl Todo {
    /// The entity to create for `input`, without an identifier.
    pub fn from_input(input: TodoInput) -> (todo: Todo)
        ensures
            todo@ == todo_of_input(input@),
    {
        Todo {
            id: None,
            name: input.name,
            created_at: input.created_at,
            updated_at: input.updated_at,
        }
    }

    /// The outside form of the entity.
    pub fn to_view(self) -> (out: Todoql)
        ensures
            out@ == todoql_of_todo(self@),
    {
        let id = match self.id {
            Some(id) => Some(id.to_hex()),
            None => None,
        };
        Todoql { name: self.name, id, created_at: self.created_at, updated_at: self.updated_at }
    }
}

} // verus!
