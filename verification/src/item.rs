//! The task record and the operation that marks it as done.

use vstd::prelude::*;

verus! {

/// The mathematical content of a task record.
pub struct TodoItemView {
    pub id: nat,
    pub name: Seq<char>,
    pub completed: bool,
}

impl TodoItemView {
    /// This record with its completion flag set; identifier and name are kept.
    pub open spec fn complete(self) -> TodoItemView {
        TodoItemView { completed: true, ..self }
    }
}

/// A task: an identifier chosen by the caller, a name, and whether it is done.
///
/// Identifiers are not checked for uniqueness or range.
#[derive(Debug, PartialEq, Eq)]
pub struct TodoItem {
    pub id: u32,
    pub name: String,
    pub completed: bool,
}

impl View for TodoItem {
    type V = TodoItemView;

    open spec fn view(&self) -> TodoItemView {
        TodoItemView { id: self.id as nat, name: self.name@, completed: self.completed }
    }
}

impl DeepView for TodoItem {
    type V = TodoItemView;

    open spec fn deep_view(&self) -> TodoItemView {
        self@
    }
}

impl TodoItem {
    /// A task that is not done yet.
    pub fn new(id: u32, name: String) -> (item: TodoItem)
        ensures
            item.id == id,
            item.name == name,
            !item.completed,
    {
        TodoItem { id, name, completed: false }
    }
}

/// Marks `item` as done. Nothing but its completion flag changes.
pub fn complete_item(item: &mut TodoItem)
    ensures
        final(item)@ == old(item)@.complete(),
        final(item).id == old(item).id,
        final(item).name == old(item).name,
        final(item).completed,
{
    item.completed = true;
}

} // verus!
