//! The display rendering of a list: one line of text for each record.

use crate::decimal::{decimal_text, lemma_decimal_text_digits, push_decimal};
use crate::item::{TodoItem, TodoItemView};
use vstd::prelude::*;

verus! {

/// How a completion flag is written.
pub open spec fn flag_text(completed: bool) -> Seq<char> {
    if completed {
        "true"@
    } else {
        "false"@
    }
}

/// The display line of a record: the identifier in decimal notation, then
/// ` - `, the name as it is, and the completion flag in round brackets.
pub open spec fn display_text(item: TodoItemView) -> Seq<char> {
    decimal_text(item.id) + " - "@ + item.name + " ("@ + flag_text(item.completed) + ")"@
}

/// A display line holds a line break exactly where the record's name holds
/// one: a record whose name is a single line is displayed on a single line.
pub proof fn lemma_display_text_line_breaks(item: TodoItemView)
    ensures
        display_text(item).contains('\n') <==> item.name.contains('\n'),
{
    let id = decimal_text(item.id);
    let flag = flag_text(item.completed);
    let line = display_text(item);
    lemma_decimal_text_digits(item.id);
    reveal_strlit(" - ");
    reveal_strlit(" (");
    reveal_strlit(")");
    reveal_strlit("true");
    reveal_strlit("false");
    if item.name.contains('\n') {
        let at = choose|i: int| 0 <= i < item.name.len() && item.name[i] == '\n';
        assert(line[id.len() + 3 + at] == '\n');
    }
    if line.contains('\n') {
        let at = choose|i: int| 0 <= i < line.len() && line[i] == '\n';
        let start = id.len() + 3;
        if at < id.len() {
            assert(line[at] == id[at]);
        } else if at < start {
            assert(line[at] == " - "@[at - id.len()]);
        } else if at < start + item.name.len() {
            assert(line[at] == item.name[at - start]);
        } else if at < start + item.name.len() + 2 {
            assert(line[at] == " ("@[at - start - item.name.len()]);
        } else if at < start + item.name.len() + 2 + flag.len() {
            assert(line[at] == flag[at - start - item.name.len() - 2]);
        } else {
            assert(line[at] == ')');
        }
    }
}

/// The text of a completion flag.
pub fn flag_str(completed: bool) -> (text: &'static str)
    ensures
        text@ == flag_text(completed),
{
    if completed {
        "true"
    } else {
        "false"
    }
}

/// The display line of `item`, without a line break at its end.
pub fn display_item(item: &TodoItem) -> (line: String)
    ensures
        line@ == display_text(item@),
{
    let mut line = String::new();
    push_decimal(&mut line, item.id);
    line.append(" - ");
    line.append(item.name.as_str());
    line.append(" (");
    line.append(flag_str(item.completed));
    line.append(")");
    line
}

/// The display lines of `items`: one for each record, in the order of the
/// records. The list itself is left as it is.
pub fn display_items(items: &Vec<TodoItem>) -> (lines: Vec<String>)
    ensures
        lines@.len() == items@.len(),
        forall|i: int| 0 <= i < items@.len() ==> (#[trigger] lines@[i])@ == display_text(items@[i]@),
{
    let mut lines: Vec<String> = Vec::new();
    let mut done: usize = 0;
    while done < items.len()
        invariant
            done <= items@.len(),
            lines@.len() == done,
            forall|i: int| 0 <= i < done ==> (#[trigger] lines@[i])@ == display_text(items@[i]@),
        decreases items@.len() - done,
    {
        lines.push(display_item(&items[done]));
        done += 1;
    }
    lines
}

} // verus!
