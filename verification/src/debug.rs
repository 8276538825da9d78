//! The debug rendering of a list: all records on one line, each with its
//! field names, between square brackets.

use crate::decimal::{decimal_text, push_decimal};
use crate::display::{flag_str, flag_text};
use crate::item::{TodoItem, TodoItemView};
use vstd::prelude::*;

verus! {

/// What the standard library's `Debug` formatting gives for a piece of text:
/// the text between double quotes, with the characters that cannot stand
/// there as they are written as escapes.
pub uninterp spec fn debug_quoted_text(text: Seq<char>) -> Seq<char>;

/// The debug rendering of a record whose name is already quoted.
pub open spec fn debug_record_text(id: nat, quoted_name: Seq<char>, completed: bool) -> Seq<char> {
    "TodoItem { id: "@ + decimal_text(id) + ", name: "@ + quoted_name + ", completed: "@
        + flag_text(completed) + " }"@
}

/// The debug rendering of a record.
pub open spec fn debug_item_text(item: TodoItemView) -> Seq<char> {
    debug_record_text(item.id, debug_quoted_text(item.name), item.completed)
}

/// The parts in their order, with `, ` between each two neighbours.
pub open spec fn comma_joined_text(parts: Seq<Seq<char>>) -> Seq<char>
    decreases parts.len(),
{
    if parts.len() == 0 {
        Seq::empty()
    } else if parts.len() == 1 {
        parts[0]
    } else {
        comma_joined_text(parts.drop_last()) + ", "@ + parts.last()
    }
}

/// The debug rendering of a list whose entries are already rendered.
pub open spec fn debug_list_text(parts: Seq<Seq<char>>) -> Seq<char> {
    "["@ + comma_joined_text(parts) + "]"@
}

/// The debug rendering of a list of records.
pub open spec fn debug_items_text(items: Seq<TodoItemView>) -> Seq<char> {
    debug_list_text(items.map_values(|item: TodoItemView| debug_item_text(item)))
}

/// Calls `<str as core::fmt::Debug>::fmt` of the standard library, through
/// `format!`. Nothing is proved of it: the result is only given the name
/// `debug_quoted_text`, which says that it depends on the characters of
/// `text` alone.
#[verifier::external_body]
fn quote_debug(text: &str) -> (quoted: String)
    ensures
        quoted@ == debug_quoted_text(text@),
{
    format!("{:?}", text)
}

/// The debug rendering of a record with identifier `id`, completion flag
/// `completed`, and a name whose quoted form is `quoted_name`.
pub fn debug_record(id: u32, quoted_name: &str, completed: bool) -> (text: String)
    ensures
        text@ == debug_record_text(id as nat, quoted_name@, completed),
{
    let mut text = String::from_str("TodoItem { id: ");
    push_decimal(&mut text, id);
    text.append(", name: ");
    text.append(quoted_name);
    text.append(", completed: ");
    text.append(flag_str(completed));
    text.append(" }");
    text
}

/// The debug rendering of `item`.
pub fn debug_item(item: &TodoItem) -> (text: String)
    ensures
        text@ == debug_item_text(item@),
{
    let quoted_name = quote_debug(item.name.as_str());
    debug_record(item.id, quoted_name.as_str(), item.completed)
}

/// The debug rendering of a list whose entries are the texts in `parts`.
pub fn debug_list(parts: &Vec<String>) -> (text: String)
    ensures
        text@ == debug_list_text(parts.deep_view()),
{
    let mut text = String::from_str("[");
    let mut done: usize = 0;
    while done < parts.len()
        invariant
            done <= parts@.len(),
            text@ == "["@ + comma_joined_text(parts.deep_view().take(done as int)),
        decreases parts@.len() - done,
    {
        if done > 0 {
            text.append(", ");
        }
        text.append(parts[done].as_str());
        proof {
            let before = parts.deep_view().take(done as int);
            let after = parts.deep_view().take(done + 1);
            assert(after.drop_last() == before);
            assert(after.last() == parts@[done as int]@);
        }
        done += 1;
    }
    proof {
        assert(parts.deep_view().take(done as int) == parts.deep_view());
    }
    text.append("]");
    text
}

/// The debug rendering of `items`: the records in their order, between
/// square brackets.
pub fn debug_items(items: &Vec<TodoItem>) -> (text: String)
    ensures
        text@ == debug_items_text(items.deep_view()),
{
    let mut parts: Vec<String> = Vec::new();
    let mut done: usize = 0;
    while done < items.len()
        invariant
            done <= items@.len(),
            parts@.len() == done,
            forall|i: int| 0 <= i < done ==> (#[trigger] parts@[i])@ == debug_item_text(items@[i]@),
        decreases items@.len() - done,
    {
        parts.push(debug_item(&items[done]));
        done += 1;
    }
    proof {
        assert(parts.deep_view() == items.deep_view().map_values(
            |item: TodoItemView| debug_item_text(item),
        ));
    }
    debug_list(&parts)
}

} // verus!
