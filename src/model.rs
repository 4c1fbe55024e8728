use vstd::prelude::*;

verus! {

/// A todo item as stored by a repository.
#[derive(Debug, Clone, PartialEq, Eq)]
pub struct Todo {
    pub id: i32,
    pub text: String,
    pub completed: bool,
}

/// The body of a request that creates a todo.
#[derive(Debug, Clone, PartialEq, Eq)]
pub struct CreateTodo {
    pub text: String,
}

/// The body of a request that replaces a todo's text and completion flag.
#[derive(Debug, Clone, PartialEq, Eq)]
pub struct UpdateTodo {
    pub id: i32,
    pub text: String,
    pub completed: bool,
}

/// A label as stored by a repository.
#[derive(Debug, Clone, PartialEq, Eq)]
pub struct Label {
    pub id: i32,
    pub name: String,
}

/// The body of a request that creates a label.
#[derive(Debug, Clone, PartialEq, Eq)]
pub struct CreateLabel {
    pub name: String,
}

/// The one failure a repository reports: the id is absent, or the backend
/// could not complete the operation.
#[derive(Debug, Clone, Copy, PartialEq, Eq, Structural)]
pub enum RepositoryError {
    NotFound,
}

/// The todo that a new id and a text make: not yet completed.
pub open spec fn fresh_todo(id: i32, text: String) -> Todo {
    Todo { id, text, completed: false }
}

/// The label that a new id and a name make.
pub open spec fn fresh_label(id: i32, name: String) -> Label {
    Label { id, name }
}

impl Todo {
    pub fn new(id: i32, text: String) -> (r: Todo)
        ensures
            r == fresh_todo(id, text),
    {
        Todo { id, text, completed: false }
    }

    /// A field-by-field copy of this todo.
    pub fn copied(&self) -> (r: Todo)
        ensures
            r == *self,
    {
        Todo { id: self.id, text: self.text.clone(), completed: self.completed }
    }
}

impl CreateTodo {
    pub fn new(text: String) -> (r: CreateTodo)
        ensures
            r.text == text,
    {
        CreateTodo { text }
    }
}

impl UpdateTodo {
    pub fn new(id: i32, text: String, completed: bool) -> (r: UpdateTodo)
        ensures
            r.id == id,
            r.text == text,
            r.completed == completed,
    {
        UpdateTodo { id, text, completed }
    }
}

impl Label {
    pub fn new(id: i32, name: String) -> (r: Label)
        ensures
            r == fresh_label(id, name),
    {
        Label { id, name }
    }

    /// A field-by-field copy of this label.
    pub fn copied(&self) -> (r: Label)
        ensures
            r == *self,
    {
        Label { id: self.id, name: self.name.clone() }
    }
}

impl CreateLabel {
    pub fn new(name: String) -> (r: CreateLabel)
        ensures
            r.name == name,
    {
        CreateLabel { name }
    }
}

} // verus!
