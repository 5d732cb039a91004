use vstd::prelude::*;

use crate::store::lines_view;
use crate::text::{decimal, push_decimal};

verus! {

/// The actions the menu offers, in the order it lists them.
#[derive(Clone, Copy, Debug, PartialEq, Eq, Structural)]
pub enum Choice {
    AddTodo,
    ViewTodos,
    MarkTodoComplete,
    MarkTodoIncomplete,
    EditTodo,
    DeleteTodo,
    WriteTodosInFile,
    Quit,
}

/// The menu, in order; an action is picked by its 1-based position.
pub open spec fn options() -> Seq<Choice> {
    seq![
        Choice::AddTodo,
        Choice::ViewTodos,
        Choice::MarkTodoComplete,
        Choice::MarkTodoIncomplete,
        Choice::EditTodo,
        Choice::DeleteTodo,
        Choice::WriteTodosInFile,
        Choice::Quit,
    ]
}

/// The menu's actions, in the order they are listed and numbered.
pub fn load_options() -> (r: Vec<Choice>)
    ensures
        r@ == options(),
{
    let r = vec![
        Choice::AddTodo,
        Choice::ViewTodos,
        Choice::MarkTodoComplete,
        Choice::MarkTodoIncomplete,
        Choice::EditTodo,
        Choice::DeleteTodo,
        Choice::WriteTodosInFile,
        Choice::Quit,
    ];
    assert(r@ =~= options());
    r
}

/// The action that a menu selection names: exactly one of the digits `1` to `8`.
pub open spec fn choice_of(t: Seq<char>) -> Option<Choice> {
    if t.len() == 1 && '1' <= t[0] && t[0] <= '8' {
        Some(options()[(t[0] as u32 - '1' as u32) as int])
    } else {
        None
    }
}

/// Reads a menu selection (already trimmed).
pub fn choice_from_text(text: &str) -> (r: Option<Choice>)
    ensures
        r == choice_of(text@),
{
    if text.unicode_len() != 1 {
        return None;
    }
    let c = text.get_char(0);
    let all = load_options();
    if '1' <= c && c <= '8' {
        let k = (c as u32 - '1' as u32) as usize;
        Some(all[k])
    } else {
        None
    }
}

impl Choice {
    /// How the menu describes the action.
    pub open spec fn label_spec(self) -> Seq<char> {
        match self {
            Choice::AddTodo => "Add a new todo"@,
            Choice::ViewTodos => "View all todos"@,
            Choice::MarkTodoComplete => "Mark a todo as complete"@,
            Choice::MarkTodoIncomplete => "Mark a todo as incomplete"@,
            Choice::EditTodo => "Edit a todo"@,
            Choice::DeleteTodo => "Delete a todo"@,
            Choice::WriteTodosInFile => "Write todos in a file"@,
            Choice::Quit => "Quit the program"@,
        }
    }

    /// The menu's description of the action.
    pub fn label(&self) -> (r: &'static str)
        ensures
            r@ == self.label_spec(),
    {
        match self {
            Choice::AddTodo => "Add a new todo",
            Choice::ViewTodos => "View all todos",
            Choice::MarkTodoComplete => "Mark a todo as complete",
            Choice::MarkTodoIncomplete => "Mark a todo as incomplete",
            Choice::EditTodo => "Edit a todo",
            Choice::DeleteTodo => "Delete a todo",
            Choice::WriteTodosInFile => "Write todos in a file",
            Choice::Quit => "Quit the program",
        }
    }
}

/// Heading printed above the numbered actions.
pub open spec fn menu_heading() -> Seq<char> {
    "What would you like to do?"@
}

/// The menu as printed: the heading, then `<n>. <label>` for each action.
pub open spec fn menu_of() -> Seq<Seq<char>> {
    seq![menu_heading()] + Seq::new(
        options().len(),
        |i: int| decimal((i + 1) as nat) + seq!['.', ' '] + options()[i].label_spec(),
    )
}

/// The lines of the menu.
pub fn menu_lines() -> (r: Vec<String>)
    ensures
        lines_view(r@) == menu_of(),
{
    let all = load_options();
    let mut out: Vec<String> = vec![String::from_str("What would you like to do?")];
    let mut i: usize = 0;
    while i < all.len()
        invariant
            all@ == options(),
            i <= all.len(),
            out@.len() == i + 1,
            lines_view(out@) == menu_of().subrange(0, i + 1),
        decreases all.len() - i,
    {
        proof {
            reveal_strlit(". ");
        }
        let mut line = String::new();
        push_decimal(&mut line, i + 1);
        line.append(". ");
        line.append(all[i].label());
        assert(line@ =~= menu_of()[i + 1]);
        out.push(line);
        assert(lines_view(out@)[i + 1] == line@);
        i = i + 1;
        assert(lines_view(out@) =~= menu_of().subrange(0, i + 1));
    }
    assert(menu_of().subrange(0, i + 1) =~= menu_of());
    out
}

} // verus!
