use vstd::prelude::*;

use crate::todo::{line_of, todo_line, Todo, TodoView};

verus! {

/// The entries of a list, as plain values, in order.
pub open spec fn model(v: Seq<Todo>) -> Seq<TodoView> {
    v.map_values(|t: Todo| t@)
}

/// Every entry has a valid title and description.
pub open spec fn all_valid(s: Seq<TodoView>) -> bool {
    forall|i: int| 0 <= i < s.len() ==> crate::todo::valid_todo(#[trigger] s[i])
}

/// Appends an entry at the end of the list.
pub fn add_todo(todos: &mut Vec<Todo>, todo: Todo)
    ensures
        model(final(todos)@) == model(old(todos)@).push(todo@),
{
    todos.push(todo);
    assert(model(todos@) =~= model(old(todos)@).push(todo@));
}

/// The list after setting the completion flag at 1-based position `index`.
pub open spec fn with_completed(s: Seq<TodoView>, index: int, complete: bool) -> Seq<TodoView> {
    s.update(index - 1, TodoView { completed: complete, ..s[index - 1] })
}

/// Sets the completion flag of the entry at 1-based position `index` to `complete`.
/// Returns `false`, and changes nothing, when the entry already has that flag.
pub fn mark_todo(todos: &mut Vec<Todo>, index: usize, complete: bool) -> (changed: bool)
    requires
        1 <= index <= old(todos).len(),
    ensures
        changed == (model(old(todos)@)[index - 1].completed != complete),
        model(final(todos)@) == with_completed(model(old(todos)@), index as int, complete),
{
    let ghost before = model(todos@);
    if todos[index - 1].completed == complete {
        assert(model(todos@) =~= with_completed(before, index as int, complete));
        return false;
    }
    todos[index - 1].completed = complete;
    assert(model(todos@) =~= with_completed(before, index as int, complete));
    true
}

/// Marks the entry at 1-based position `index` as completed; `false` when it already was.
pub fn mark_todo_complete(todos: &mut Vec<Todo>, index: usize) -> (changed: bool)
    requires
        1 <= index <= old(todos).len(),
    ensures
        changed == !model(old(todos)@)[index - 1].completed,
        model(final(todos)@) == with_completed(model(old(todos)@), index as int, true),
{
    mark_todo(todos, index, true)
}

/// Marks the entry at 1-based position `index` as not completed; `false` when it already was not.
pub fn mark_todo_incomplete(todos: &mut Vec<Todo>, index: usize) -> (changed: bool)
    requires
        1 <= index <= old(todos).len(),
    ensures
        changed == model(old(todos)@)[index - 1].completed,
        model(final(todos)@) == with_completed(model(old(todos)@), index as int, false),
{
    mark_todo(todos, index, false)
}

/// The list after giving the entry at 1-based position `index` a new title and description.
pub open spec fn with_text(
    s: Seq<TodoView>,
    index: int,
    title: Seq<char>,
    description: Seq<char>,
) -> Seq<TodoView> {
    s.update(index - 1, TodoView { title, description, completed: s[index - 1].completed })
}

/// Replaces title and description of the entry at 1-based position `index`; its
/// completion flag stays.
pub fn edit_todo(todos: &mut Vec<Todo>, index: usize, title: String, description: String)
    requires
        1 <= index <= old(todos).len(),
    ensures
        model(final(todos)@) == with_text(model(old(todos)@), index as int, title@, description@),
{
    let ghost before = model(todos@);
    let ghost (t, d) = (title@, description@);
    todos[index - 1].title = title;
    todos[index - 1].description = description;
    assert(model(todos@) =~= with_text(before, index as int, t, d));
}

/// Removes the entry at 1-based position `index`; later entries move up by one.
pub fn delete_todo(todos: &mut Vec<Todo>, index: usize)
    requires
        1 <= index <= old(todos).len(),
    ensures
        model(final(todos)@) == model(old(todos)@).remove(index - 1),
{
    let ghost before = model(todos@);
    todos.remove(index - 1);
    assert(model(todos@) =~= before.remove(index - 1));
}

/// The lines of the listing: the entry at index `i` shown at position `i + 1`.
pub open spec fn listing_of(s: Seq<TodoView>) -> Seq<Seq<char>> {
    Seq::new(s.len(), |i: int| line_of((i + 1) as nat, s[i]))
}

/// Views of a sequence of strings.
pub open spec fn lines_view(v: Seq<String>) -> Seq<Seq<char>> {
    v.map_values(|l: String| l@)
}

/// One line per entry, numbered from 1.
pub fn listing(todos: &Vec<Todo>) -> (r: Vec<String>)
    ensures
        lines_view(r@) == listing_of(model(todos@)),
{
    let mut out: Vec<String> = Vec::new();
    let mut i: usize = 0;
    while i < todos.len()
        invariant
            i <= todos.len(),
            out@.len() == i,
            lines_view(out@) == listing_of(model(todos@)).subrange(0, i as int),
        decreases todos.len() - i,
    {
        let line = todo_line(i + 1, &todos[i]);
        assert(model(todos@)[i as int] == todos@[i as int]@);
        out.push(line);
        assert(lines_view(out@)[i as int] == line@);
        i = i + 1;
        assert(lines_view(out@) =~= listing_of(model(todos@)).subrange(0, i as int));
    }
    assert(listing_of(model(todos@)).subrange(0, i as int) =~= listing_of(model(todos@)));
    out
}

/// Shown in place of the listing when the list is empty.
pub open spec fn no_todos_text() -> Seq<char> {
    "No todos found."@
}

/// What viewing the list shows: the listing, or a single notice when it is empty.
pub open spec fn view_of(s: Seq<TodoView>) -> Seq<Seq<char>> {
    if s.len() == 0 {
        seq![no_todos_text()]
    } else {
        listing_of(s)
    }
}

/// The lines that viewing the list prints.
pub fn view_todos(todos: &Vec<Todo>) -> (r: Vec<String>)
    ensures
        lines_view(r@) == view_of(model(todos@)),
{
    if todos.len() == 0 {
        let r = vec![String::from_str("No todos found.")];
        assert(lines_view(r@) =~= view_of(model(todos@)));
        return r;
    }
    listing(todos)
}

/// The plain-text export: every listing line followed by a newline.
pub open spec fn export_text(s: Seq<TodoView>) -> Seq<char>
    decreases s.len(),
{
    if s.len() == 0 {
        Seq::empty()
    } else {
        export_text(s.drop_last()) + line_of(s.len(), s.last()) + seq!['\n']
    }
}

/// The contents of the plain-text export file.
pub fn plain_text(todos: &Vec<Todo>) -> (r: String)
    ensures
        r@ == export_text(model(todos@)),
{
    let ghost s = model(todos@);
    let mut out = String::new();
    let mut i: usize = 0;
    while i < todos.len()
        invariant
            i <= todos.len(),
            s == model(todos@),
            out@ == export_text(s.subrange(0, i as int)),
        decreases todos.len() - i,
    {
        let line = todo_line(i + 1, &todos[i]);
        assert(s[i as int] == todos@[i as int]@);
        proof {
            reveal_strlit("\n");
        }
        out.append(line.as_str());
        out.append("\n");
        assert(s.subrange(0, i + 1).drop_last() =~= s.subrange(0, i as int));
        assert(s.subrange(0, i + 1).last() == s[i as int]);
        assert(out@ =~= export_text(s.subrange(0, i + 1)));
        i = i + 1;
    }
    assert(s.subrange(0, i as int) =~= s);
    out
}

/// The two forms of export.
#[derive(Clone, Copy, Debug, PartialEq, Eq, Structural)]
pub enum FileFormat {
    /// Pretty-printed JSON of the whole list.
    Json,
    /// The listing, one line per entry.
    Text,
}

/// The format that a selector names: `1` for JSON, `2` for plain text.
pub open spec fn format_of(selector: Seq<char>) -> Option<FileFormat> {
    if selector == seq!['1'] {
        Some(FileFormat::Json)
    } else if selector == seq!['2'] {
        Some(FileFormat::Text)
    } else {
        None
    }
}

/// Reads a format selector.
pub fn format_from_selector(selector: &str) -> (r: Option<FileFormat>)
    ensures
        r == format_of(selector@),
{
    if selector.unicode_len() != 1 {
        return None;
    }
    let c = selector.get_char(0);
    assert(selector@ =~= seq![c]);
    if c == '1' {
        Some(FileFormat::Json)
    } else if c == '2' {
        Some(FileFormat::Text)
    } else {
        None
    }
}

/// The fixed file that each format is written to.
pub open spec fn file_name_of(format: FileFormat) -> Seq<char> {
    match format {
        FileFormat::Json => "todos.json"@,
        FileFormat::Text => "todos.txt"@,
    }
}

/// Name of the file that an export in `format` writes.
pub fn export_file_name(format: FileFormat) -> (r: &'static str)
    ensures
        r@ == file_name_of(format),
{
    match format {
        FileFormat::Json => "todos.json",
        FileFormat::Text => "todos.txt",
    }
}

} // verus!
