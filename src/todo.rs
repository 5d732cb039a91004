use vstd::prelude::*;

use crate::text::{decimal, push_decimal};

verus! {

/// Longest title, in characters.
pub const TITLE_MAX: usize = 50;

/// Longest description, in characters.
pub const DESCRIPTION_MAX: usize = 250;

/// One entry of the list.
pub struct Todo {
    pub title: String,
    pub description: String,
    pub completed: bool,
}

/// What a `Todo` holds, as plain values.
pub struct TodoView {
    pub title: Seq<char>,
    pub description: Seq<char>,
    pub completed: bool,
}

impl View for Todo {
    type V = TodoView;

    open spec fn view(&self) -> TodoView {
        TodoView { title: self.title@, description: self.description@, completed: self.completed }
    }
}

/// A title of 1 to 50 characters and a description of at most 250.
pub open spec fn valid_todo(t: TodoView) -> bool {
    1 <= t.title.len() <= TITLE_MAX && t.description.len() <= DESCRIPTION_MAX
}

/// Makes a fresh, not yet completed entry.
pub fn create_todo(title: String, description: String) -> (r: Todo)
    ensures
        r@ == (TodoView { title: title@, description: description@, completed: false }),
{
    Todo { title, description, completed: false }
}

/// The box shown after an entry: `x` when completed, a blank otherwise.
pub open spec fn mark_of(completed: bool) -> Seq<char> {
    if completed {
        seq!['x']
    } else {
        seq![' ']
    }
}

/// How the entry at 1-based position `pos` is shown:
/// `<pos>. <title> - <description> [<x or blank>]`.
pub open spec fn line_of(pos: nat, t: TodoView) -> Seq<char> {
    decimal(pos) + seq!['.', ' '] + t.title + seq![' ', '-', ' '] + t.description + seq![' ', '[']
        + mark_of(t.completed) + seq![']']
}

/// Renders the entry at 1-based position `pos`.
pub fn todo_line(pos: usize, todo: &Todo) -> (r: String)
    ensures
        r@ == line_of(pos as nat, todo@),
{
    proof {
        reveal_strlit(". ");
        reveal_strlit(" - ");
        reveal_strlit(" [");
        reveal_strlit("x");
        reveal_strlit(" ");
        reveal_strlit("]");
    }
    let mut out = String::new();
    push_decimal(&mut out, pos);
    out.append(". ");
    out.append(todo.title.as_str());
    out.append(" - ");
    out.append(todo.description.as_str());
    out.append(" [");
    if todo.completed {
        out.append("x");
    } else {
        out.append(" ");
    }
    out.append("]");
    assert(out@ =~= line_of(pos as nat, todo@));
    out
}

} // verus!
