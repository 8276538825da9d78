//! The list that the program starts with, and the line that it prints.

use crate::debug::{debug_items, debug_items_text};
use crate::item::{TodoItem, TodoItemView};
use vstd::prelude::*;

verus! {

/// The two records of the starting list, in their order.
pub open spec fn starting_list() -> Seq<TodoItemView> {
    seq![
        TodoItemView { id: 1, name: "Buy milk"@, completed: false },
        TodoItemView { id: 2, name: "Walk the dog"@, completed: false },
    ]
}

/// In a list, completing the record at one place leaves the length of the
/// list and every other record as they were.
pub proof fn lemma_complete_keeps_other_records(items: Seq<TodoItemView>, at: int)
    requires
        0 <= at < items.len(),
    ensures
        items.update(at, items[at].complete()).len() == items.len(),
        items.update(at, items[at].complete())[at] == items[at].complete(),
        forall|i: int|
            0 <= i < items.len() && i != at ==> #[trigger] items.update(
                at,
                items[at].complete(),
            )[i] == items[i],
{
}

/// Builds the starting list: two tasks, neither of them done.
pub fn build_todo_list() -> (items: Vec<TodoItem>)
    ensures
        items@.len() == 2,
        items.deep_view() == starting_list(),
{
    let mut items: Vec<TodoItem> = Vec::new();
    items.push(TodoItem::new(1, String::from_str("Buy milk")));
    items.push(TodoItem::new(2, String::from_str("Walk the dog")));
    items
}

/// The line that the program prints: the debug rendering of the starting
/// list. It is the same text at every call.
pub fn output_line() -> (line: String)
    ensures
        line@ == debug_items_text(starting_list()),
{
    let items = build_todo_list();
    debug_items(&items)
}

} // verus!
