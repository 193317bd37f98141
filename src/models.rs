use vstd::prelude::*;

verus! {

/// The two pages of the application: each shows one list of tasks.
#[derive(Debug, Clone, Copy, PartialEq, Eq, Structural)]
pub enum CurrentPage {
    Tasks,
    Archives,
}

/// A key press, as far as the application tells keys apart.
#[derive(Debug, Clone, Copy, PartialEq, Eq, Structural)]
pub enum Key {
    Char(char),
    Esc,
    Up,
    Down,
    Enter,
    Delete,
    Other,
}

/// One task: a description and whether it has been done.
#[derive(Debug, Default)]
pub struct TodoItem {
    pub is_done: bool,
    pub description: String,
}

impl TodoItem {
    /// A task that is not done yet, with the given description.
    pub fn new(description: &str) -> (r: TodoItem)
        ensures
            r.description@ == description@,
            !r.is_done,
    {
        TodoItem { is_done: false, description: description.to_string() }
    }
}

} // verus!
