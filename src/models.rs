use vstd::prelude::*;

verus! {

/// A stored todo item.
#[derive(Debug, PartialEq, Eq)]
pub struct Todo {
    pub id: i32,
    pub text: String,
    pub completed: bool,
}

impl Todo {
    /// A todo that is not completed yet.
    pub fn new(id: i32, text: String) -> (r: Todo)
        ensures
            r == (Todo { id, text, completed: false }),
    {
        Todo { id, text, completed: false }
    }
}

impl Clone for Todo {
    fn clone(&self) -> (r: Self)
        ensures
            r == *self,
    {
        Todo { id: self.id, text: self.text.clone(), completed: self.completed }
    }
}

/// Payload that creates a todo.
#[derive(Debug, PartialEq, Eq)]
pub struct CreateTodo {
    pub text: String,
}

impl CreateTodo {
    pub fn new(text: String) -> (r: CreateTodo)
        ensures
            r == (CreateTodo { text }),
    {
        CreateTodo { text }
    }
}

impl Clone for CreateTodo {
    fn clone(&self) -> (r: Self)
        ensures
            r == *self,
    {
        CreateTodo { text: self.text.clone() }
    }
}

/// Payload that replaces the mutable fields of a todo. Its `id` is
/// informational: the id that the caller passes beside it is the one used.
#[derive(Debug, PartialEq, Eq)]
pub struct UpdateTodo {
    pub id: i32,
    pub text: String,
    pub completed: bool,
}

impl UpdateTodo {
    pub fn new(id: i32, text: String, completed: bool) -> (r: UpdateTodo)
        ensures
            r == (UpdateTodo { id, text, completed }),
    {
        UpdateTodo { id, text, completed }
    }
}

impl Clone for UpdateTodo {
    fn clone(&self) -> (r: Self)
        ensures
            r == *self,
    {
        UpdateTodo { id: self.id, text: self.text.clone(), completed: self.completed }
    }
}

/// A stored label; its name is unique within a store.
#[derive(Debug, PartialEq, Eq)]
pub struct Label {
    pub id: i32,
    pub name: String,
}

impl Label {
    pub fn new(id: i32, name: String) -> (r: Label)
        ensures
            r == (Label { id, name }),
    {
        Label { id, name }
    }
}

impl Clone for Label {
    fn clone(&self) -> (r: Self)
        ensures
            r == *self,
    {
        Label { id: self.id, name: self.name.clone() }
    }
}

/// Payload that creates a label; its name must hold 1 to 255 characters.
#[derive(Debug, PartialEq, Eq)]
pub struct CreateLabel {
    pub name: String,
}

impl CreateLabel {
    pub fn new(name: String) -> (r: CreateLabel)
        ensures
            r == (CreateLabel { name }),
    {
        CreateLabel { name }
    }
}

impl Clone for CreateLabel {
    fn clone(&self) -> (r: Self)
        ensures
            r == *self,
    {
        CreateLabel { name: self.name.clone() }
    }
}

/// Payload that renames a label.
#[derive(Debug, PartialEq, Eq)]
pub struct UpdateLabel {
    pub id: i32,
    pub name: String,
}

impl Clone for UpdateLabel {
    fn clone(&self) -> (r: Self)
        ensures
            r == *self,
    {
        UpdateLabel { id: self.id, name: self.name.clone() }
    }
}

} // verus!
