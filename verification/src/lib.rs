//! A small to-do list: task records, the operation that completes one, and
//! the two text renderings of a list.

pub mod debug;
pub mod decimal;
pub mod display;
pub mod item;
pub mod list;

pub use debug::{debug_item, debug_items, debug_list, debug_record};
pub use decimal::{decimal_string, push_decimal};
pub use display::{display_item, display_items, flag_str};
pub use item::{complete_item, TodoItem, TodoItemView};
pub use list::{build_todo_list, output_line};
