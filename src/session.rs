use vstd::prelude::*;

use crate::menu::{choice_from_text, choice_of, menu_lines, menu_of, Choice};
use crate::store::{
    add_todo, all_valid, delete_todo, edit_todo, format_from_selector, format_of,
    lines_view, listing, listing_of, mark_todo, model, view_of, view_todos, with_completed,
    with_text, FileFormat,
};
use crate::text::{
    check_text, index_input, index_input_of, invalid_text, rejection_line, rejection_text, text_check,
    trim, trimmed, IndexInput, TextCheck,
};
use crate::todo::{
    create_todo, line_of, todo_line, valid_todo, Todo, TodoView, DESCRIPTION_MAX, TITLE_MAX,
};

verus! {

/// Where the conversation with the user stands: which answer the next line gives.
#[derive(Clone, Copy, Debug, PartialEq, Eq, Structural)]
pub enum Stage {
    /// Picking an action from the menu.
    Menu,
    /// Title of a new entry.
    AddTitle,
    /// Description of a new entry, whose title is the draft.
    AddDescription,
    /// Position of the entry to mark as completed (`true`) or not completed (`false`).
    MarkIndex { complete: bool },
    /// Position of the entry to edit.
    EditIndex,
    /// New title of the entry at `index`.
    EditTitle { index: usize },
    /// New description of the entry at `index`, whose new title is the draft.
    EditDescription { index: usize },
    /// Position of the entry to delete.
    DeleteIndex,
    /// Yes or no to deleting the entry at `index`.
    DeleteConfirm { index: usize },
    /// Export format selector.
    ExportFormat,
    /// The user quit.
    Finished,
}

/// The list of one run and the state of the dialogue around it.
pub struct Session {
    todos: Vec<Todo>,
    stage: Stage,
    draft: String,
}

pub struct SessionView {
    pub todos: Seq<TodoView>,
    pub stage: Stage,
    pub draft: Seq<char>,
}

impl View for Session {
    type V = SessionView;

    closed spec fn view(&self) -> SessionView {
        SessionView { todos: model(self.todos@), stage: self.stage, draft: self.draft@ }
    }
}

/// What one line of input does: the session afterwards, what is printed, the
/// error reported, and the export to perform, if any.
pub struct Outcome {
    pub todos: Seq<TodoView>,
    pub stage: Stage,
    pub draft: Seq<char>,
    pub lines: Seq<Seq<char>>,
    pub error: Option<Seq<char>>,
    pub export: Option<FileFormat>,
}

/// What a handled line hands back: lines to print, an error to report, and an
/// export to perform.
pub struct Reply {
    pub lines: Vec<String>,
    pub error: Option<String>,
    pub export: Option<FileFormat>,
}

/// The view of an optional error message.
pub open spec fn error_view(e: Option<String>) -> Option<Seq<char>> {
    match e {
        Some(m) => Some(m@),
        None => None,
    }
}

/// The entries are valid, a pending position names an entry and a pending
/// draft title is valid.
pub open spec fn session_ok(s: SessionView) -> bool {
    &&& all_valid(s.todos)
    &&& match s.stage {
        Stage::EditTitle { index } => 1 <= index <= s.todos.len(),
        Stage::EditDescription { index } => 1 <= index <= s.todos.len() && 1 <= s.draft.len()
            <= TITLE_MAX,
        Stage::DeleteConfirm { index } => 1 <= index <= s.todos.len(),
        Stage::AddDescription => 1 <= s.draft.len() <= TITLE_MAX,
        _ => true,
    }
}

/// Moves to `stage` with the given list and draft, printing `lines`.
pub open spec fn goes(
    todos: Seq<TodoView>,
    stage: Stage,
    draft: Seq<char>,
    lines: Seq<Seq<char>>,
) -> Outcome {
    Outcome { todos, stage, draft, lines, error: None, export: None }
}

/// Nothing changes but what is printed.
pub open spec fn stays(s: SessionView, lines: Seq<Seq<char>>) -> Outcome {
    goes(s.todos, s.stage, s.draft, lines)
}

pub open spec fn nothing_saved_text() -> Seq<char> {
    "You have no todos saved"@
}

pub open spec fn goodbye_text() -> Seq<char> {
    "Goodbye!"@
}

pub open spec fn add_cancelled_text() -> Seq<char> {
    "Cancelled creating new todo"@
}

pub open spec fn edit_cancelled_text() -> Seq<char> {
    "Cancelled editing the todo"@
}

pub open spec fn edited_text() -> Seq<char> {
    "Todo is edited!"@
}

pub open spec fn already_text(complete: bool) -> Seq<char> {
    if complete {
        "This todo is already marked as completed"@
    } else {
        "This todo is already marked as incompleted"@
    }
}

pub open spec fn marked_text(complete: bool) -> Seq<char> {
    if complete {
        "Todo marked as done"@
    } else {
        "Todo marked as incomplete"@
    }
}

pub open spec fn deleted_text() -> Seq<char> {
    "Todo deleted successfully"@
}

pub open spec fn not_deleted_text() -> Seq<char> {
    "Todo not deleted"@
}

pub open spec fn export_cancelled_text() -> Seq<char> {
    "Export cancelled"@
}

/// The export error for a selector that names no format.
pub open spec fn unknown_format_error() -> Seq<char> {
    "Invalid input"@
}

/// A menu action that needs an entry to work on.
pub open spec fn needs_entry(s: SessionView, next: Stage) -> Outcome {
    if s.todos.len() == 0 {
        stays(s, seq![nothing_saved_text()])
    } else {
        goes(s.todos, next, s.draft, seq![])
    }
}

/// A menu selection.
pub open spec fn menu_step(s: SessionView, t: Seq<char>) -> Outcome {
    match choice_of(t) {
        None => stays(s, seq![invalid_text()]),
        Some(Choice::AddTodo) => goes(s.todos, Stage::AddTitle, s.draft, seq![]),
        Some(Choice::ViewTodos) => stays(s, view_of(s.todos)),
        Some(Choice::MarkTodoComplete) => needs_entry(s, Stage::MarkIndex { complete: true }),
        Some(Choice::MarkTodoIncomplete) => needs_entry(s, Stage::MarkIndex { complete: false }),
        Some(Choice::EditTodo) => needs_entry(s, Stage::EditIndex),
        Some(Choice::DeleteTodo) => needs_entry(s, Stage::DeleteIndex),
        Some(Choice::WriteTodosInFile) => goes(s.todos, Stage::ExportFormat, s.draft, seq![]),
        Some(Choice::Quit) => goes(s.todos, Stage::Finished, s.draft, seq![goodbye_text()]),
    }
}

/// A title answer: `next` on a valid title, which becomes the draft.
pub open spec fn title_step(s: SessionView, t: Seq<char>, next: Stage, cancelled: Seq<char>) -> Outcome {
    let check = text_check(t, 1, TITLE_MAX as nat);
    if check == TextCheck::Cancel {
        goes(s.todos, Stage::Menu, s.draft, seq![cancelled])
    } else if check == TextCheck::Accept {
        goes(s.todos, next, t, seq![])
    } else {
        stays(s, seq![rejection_text(check, 1, TITLE_MAX as nat)])
    }
}

/// A description answer: `None` to ask again, else the description, which the
/// cancel sentinel leaves empty.
pub open spec fn description_of(t: Seq<char>) -> Option<Seq<char>> {
    let check = text_check(t, 0, DESCRIPTION_MAX as nat);
    if check == TextCheck::Cancel {
        Some(Seq::empty())
    } else if check == TextCheck::Accept {
        Some(t)
    } else {
        None
    }
}

/// A description that is empty or too long: asked again.
pub open spec fn description_rejected(s: SessionView, t: Seq<char>) -> Outcome {
    stays(s, seq![rejection_text(text_check(t, 0, DESCRIPTION_MAX as nat), 0, DESCRIPTION_MAX as nat)])
}

/// The description of a new entry, which is then appended.
pub open spec fn add_description_step(s: SessionView, t: Seq<char>) -> Outcome {
    match description_of(t) {
        Some(d) => goes(
            s.todos.push(TodoView { title: s.draft, description: d, completed: false }),
            Stage::Menu,
            s.draft,
            seq![],
        ),
        None => description_rejected(s, t),
    }
}

/// The new description of the entry at `index`, which then takes the draft
/// title and this description.
pub open spec fn edit_description_step(s: SessionView, t: Seq<char>, index: usize) -> Outcome {
    match description_of(t) {
        Some(d) => goes(
            with_text(s.todos, index as int, s.draft, d),
            Stage::Menu,
            s.draft,
            seq![edited_text()],
        ),
        None => description_rejected(s, t),
    }
}

/// A position answer that names no entry: `0` goes back to the menu, anything
/// else asks again; `None` for a valid position.
pub open spec fn index_rejected(s: SessionView, t: Seq<char>) -> Option<Outcome> {
    match index_input_of(t, s.todos.len()) {
        IndexInput::Cancel => Some(goes(s.todos, Stage::Menu, s.draft, seq![])),
        IndexInput::Invalid => Some(stays(s, seq![invalid_text()])),
        IndexInput::Pick(_) => None,
    }
}

/// The position to mark: an entry already in the wanted state is reported and
/// the question comes again; otherwise it is marked and the menu follows.
pub open spec fn mark_step(s: SessionView, t: Seq<char>, complete: bool) -> Outcome {
    match index_input_of(t, s.todos.len()) {
        IndexInput::Pick(k) => if s.todos[k - 1].completed == complete {
            stays(s, seq![already_text(complete)])
        } else {
            goes(
                with_completed(s.todos, k as int, complete),
                Stage::Menu,
                s.draft,
                seq![marked_text(complete)],
            )
        },
        _ => index_rejected(s, t).unwrap(),
    }
}

/// The position to edit (`edit`) or to delete.
pub open spec fn pick_step(s: SessionView, t: Seq<char>, edit: bool) -> Outcome {
    match index_input_of(t, s.todos.len()) {
        IndexInput::Pick(k) => goes(
            s.todos,
            if edit {
                Stage::EditTitle { index: k }
            } else {
                Stage::DeleteConfirm { index: k }
            },
            s.draft,
            seq![],
        ),
        _ => index_rejected(s, t).unwrap(),
    }
}

/// Deletion is confirmed by `y` or `Y` alone.
pub open spec fn is_yes(t: Seq<char>) -> bool {
    t == seq!['y'] || t == seq!['Y']
}

/// The answer to the deletion question: `y` or `Y` deletes, any other single
/// character or `0` keeps the entry; both go back to the menu.
pub open spec fn confirm_step(s: SessionView, t: Seq<char>, index: usize) -> Outcome {
    let check = text_check(t, 1, 1);
    if check == TextCheck::Accept && is_yes(t) {
        goes(s.todos.remove(index - 1), Stage::Menu, s.draft, seq![deleted_text()])
    } else if check == TextCheck::Accept || check == TextCheck::Cancel {
        goes(s.todos, Stage::Menu, s.draft, seq![not_deleted_text()])
    } else {
        stays(s, seq![rejection_text(check, 1, 1)])
    }
}

/// The export format selector.
pub open spec fn export_step(s: SessionView, t: Seq<char>) -> Outcome {
    let check = text_check(t, 1, 2);
    if check == TextCheck::Cancel {
        goes(s.todos, Stage::Menu, s.draft, seq![export_cancelled_text()])
    } else if check != TextCheck::Accept {
        stays(s, seq![rejection_text(check, 1, 2)])
    } else {
        match format_of(t) {
            Some(f) => Outcome {
                todos: s.todos,
                stage: Stage::Menu,
                draft: s.draft,
                lines: seq![],
                error: None,
                export: Some(f),
            },
            None => Outcome {
                todos: s.todos,
                stage: Stage::Menu,
                draft: s.draft,
                lines: seq![],
                error: Some(unknown_format_error()),
                export: None,
            },
        }
    }
}

/// What the (trimmed) line `t` does in session `s`.
pub open spec fn step_of(s: SessionView, t: Seq<char>) -> Outcome {
    match s.stage {
        Stage::Menu => menu_step(s, t),
        Stage::AddTitle => title_step(s, t, Stage::AddDescription, add_cancelled_text()),
        Stage::AddDescription => add_description_step(s, t),
        Stage::MarkIndex { complete } => mark_step(s, t, complete),
        Stage::EditIndex => pick_step(s, t, true),
        Stage::EditTitle { index } => title_step(
            s,
            t,
            Stage::EditDescription { index },
            edit_cancelled_text(),
        ),
        Stage::EditDescription { index } => edit_description_step(s, t, index),
        Stage::DeleteIndex => pick_step(s, t, false),
        Stage::DeleteConfirm { index } => confirm_step(s, t, index),
        Stage::ExportFormat => export_step(s, t),
        Stage::Finished => stays(s, seq![]),
    }
}

/// The session that `o` leaves and the reply that it prints.
pub open spec fn ends_as(after: SessionView, r: Reply, o: Outcome) -> bool {
    &&& after.todos == o.todos
    &&& after.stage == o.stage
    &&& after.draft == o.draft
    &&& lines_view(r.lines@) == o.lines
    &&& error_view(r.error) == o.error
    &&& r.export == o.export
}

pub open spec fn title_prompt() -> Seq<char> {
    "Enter the title (0 to go back to the menu)"@
}

pub open spec fn description_prompt() -> Seq<char> {
    "Enter the description (0 to leave it empty)"@
}

pub open spec fn mark_prompt(complete: bool) -> Seq<char> {
    if complete {
        "Which one do you want to mark as completed? Enter 0 to go back to the menu"@
    } else {
        "Which one do you want to mark as incomplete? Enter 0 to go back to the menu"@
    }
}

pub open spec fn edit_prompt() -> Seq<char> {
    "Which one do you want to edit? Enter 0 to go back to the menu"@
}

pub open spec fn delete_prompt() -> Seq<char> {
    "Which one do you want to delete? Enter 0 to go back to the menu"@
}

pub open spec fn confirm_prompt() -> Seq<char> {
    "Are you sure you want to delete this todo? (y/n)"@
}

pub open spec fn export_prompt() -> Seq<char> {
    "Choose file format: (1) JSON, (2) Plain text. Enter 0 to go back to the menu"@
}

/// What the session shows before it reads the next line.
pub open spec fn prompt_of(s: SessionView) -> Seq<Seq<char>> {
    match s.stage {
        Stage::Menu => menu_of(),
        Stage::AddTitle | Stage::EditTitle { .. } => seq![title_prompt()],
        Stage::AddDescription | Stage::EditDescription { .. } => seq![description_prompt()],
        Stage::MarkIndex { complete } => listing_of(s.todos).push(mark_prompt(complete)),
        Stage::EditIndex => listing_of(s.todos).push(edit_prompt()),
        Stage::DeleteIndex => listing_of(s.todos).push(delete_prompt()),
        Stage::DeleteConfirm { index } => seq![
            line_of(index as nat, s.todos[index - 1]),
            confirm_prompt(),
        ],
        Stage::ExportFormat => seq![export_prompt()],
        Stage::Finished => seq![],
    }
}

/// Deletion is confirmed by `y` or `Y` alone.
pub fn confirms_deletion(text: &str) -> (r: bool)
    ensures
        r == is_yes(text@),
{
    if text.unicode_len() != 1 {
        assert(!is_yes(text@)) by {
            if is_yes(text@) {
                assert(text@.len() == 1);
            }
        }
        return false;
    }
    let c = text.get_char(0);
    assert(text@ =~= seq![c]);
    c == 'y' || c == 'Y'
}

fn one_line(s: &str) -> (r: Vec<String>)
    ensures
        lines_view(r@) == seq![s@],
{
    let r = vec![String::from_str(s)];
    assert(lines_view(r@) =~= seq![s@]);
    r
}

fn no_lines() -> (r: Vec<String>)
    ensures
        lines_view(r@) == Seq::<Seq<char>>::empty(),
{
    let r: Vec<String> = Vec::new();
    assert(lines_view(r@) =~= Seq::<Seq<char>>::empty());
    r
}

fn printing(lines: Vec<String>) -> (r: Reply)
    ensures
        r.lines@ == lines@,
        r.error is None,
        r.export is None,
{
    Reply { lines, error: None, export: None }
}

impl Session {
    /// An empty list, at the menu.
    pub fn new() -> (r: Session)
        ensures
            r@.todos == Seq::<TodoView>::empty(),
            r@.stage == Stage::Menu,
            session_ok(r@),
    {
        let r = Session { todos: Vec::new(), stage: Stage::Menu, draft: String::new() };
        assert(r@.todos =~= Seq::<TodoView>::empty());
        r
    }

    /// The entries, in order.
    pub fn todos(&self) -> (r: &Vec<Todo>)
        ensures
            model(r@) == self@.todos,
    {
        &self.todos
    }

    /// Which answer the next line gives.
    pub fn stage(&self) -> (r: Stage)
        ensures
            r == self@.stage,
    {
        self.stage
    }

    /// Whether the user has quit.
    pub fn is_finished(&self) -> (r: bool)
        ensures
            r == (self@.stage == Stage::Finished),
    {
        self.stage == Stage::Finished
    }

    fn needs_entry(&mut self, next: Stage) -> (r: Reply)
        requires
            session_ok(old(self)@),
            !(next is EditTitle || next is EditDescription || next is DeleteConfirm
                || next is AddDescription),
        ensures
            session_ok(final(self)@),
            ends_as(final(self)@, r, needs_entry(old(self)@, next)),
    {
        if self.todos.len() == 0 {
            return printing(one_line("You have no todos saved"));
        }
        self.stage = next;
        printing(no_lines())
    }

    fn on_menu(&mut self, text: &str) -> (r: Reply)
        requires
            session_ok(old(self)@),
        ensures
            session_ok(final(self)@),
            ends_as(final(self)@, r, menu_step(old(self)@, text@)),
    {
        match choice_from_text(text) {
            None => printing(one_line("Invalid input, please try again")),
            Some(Choice::AddTodo) => {
                self.stage = Stage::AddTitle;
                printing(no_lines())
            },
            Some(Choice::ViewTodos) => printing(view_todos(&self.todos)),
            Some(Choice::MarkTodoComplete) => self.needs_entry(Stage::MarkIndex { complete: true }),
            Some(Choice::MarkTodoIncomplete) => self.needs_entry(
                Stage::MarkIndex { complete: false },
            ),
            Some(Choice::EditTodo) => self.needs_entry(Stage::EditIndex),
            Some(Choice::DeleteTodo) => self.needs_entry(Stage::DeleteIndex),
            Some(Choice::WriteTodosInFile) => {
                self.stage = Stage::ExportFormat;
                printing(no_lines())
            },
            Some(Choice::Quit) => {
                self.stage = Stage::Finished;
                printing(one_line("Goodbye!"))
            },
        }
    }

    fn on_title(&mut self, text: &str, next: Stage, cancelled: &str) -> (r: Reply)
        requires
            session_ok(old(self)@),
            match next {
                Stage::EditDescription { index } => 1 <= index <= old(self)@.todos.len(),
                Stage::AddDescription => true,
                _ => false,
            },
        ensures
            session_ok(final(self)@),
            ends_as(final(self)@, r, title_step(old(self)@, text@, next, cancelled@)),
    {
        let check = check_text(text, 1, TITLE_MAX);
        match check {
            TextCheck::Cancel => {
                self.stage = Stage::Menu;
                printing(one_line(cancelled))
            },
            TextCheck::Accept => {
                self.draft = String::from_str(text);
                self.stage = next;
                printing(no_lines())
            },
            _ => {
                let line = rejection_line(check, 1, TITLE_MAX);
                printing(one_line(line.as_str()))
            },
        }
    }

    fn description(text: &str) -> (r: Result<String, TextCheck>)
        ensures
            r matches Ok(d) ==> description_of(text@) == Some(d@) && d@.len() <= DESCRIPTION_MAX,
            r matches Err(c) ==> description_of(text@) is None && c == text_check(
                text@,
                0,
                DESCRIPTION_MAX as nat,
            ),
    {
        let check = check_text(text, 0, DESCRIPTION_MAX);
        match check {
            TextCheck::Cancel => Ok(String::new()),
            TextCheck::Accept => Ok(String::from_str(text)),
            _ => Err(check),
        }
    }

    fn on_add_description(&mut self, text: &str) -> (r: Reply)
        requires
            session_ok(old(self)@),
            old(self)@.stage == Stage::AddDescription,
        ensures
            session_ok(final(self)@),
            ends_as(final(self)@, r, add_description_step(old(self)@, text@)),
    {
        match Self::description(text) {
            Ok(d) => {
                let ghost before = self@.todos;
                let todo = create_todo(self.draft.clone(), d);
                add_todo(&mut self.todos, todo);
                self.stage = Stage::Menu;
                assert(all_valid(self@.todos)) by {
                    assert forall|i: int| 0 <= i < self@.todos.len() implies valid_todo(
                        #[trigger] self@.todos[i],
                    ) by {
                        if i < before.len() {
                            assert(self@.todos[i] == before[i]);
                        }
                    }
                }
                printing(no_lines())
            },
            Err(c) => {
                let line = rejection_line(c, 0, DESCRIPTION_MAX);
                printing(one_line(line.as_str()))
            },
        }
    }

    fn on_edit_description(&mut self, text: &str, index: usize) -> (r: Reply)
        requires
            session_ok(old(self)@),
            old(self)@.stage == (Stage::EditDescription { index }),
        ensures
            session_ok(final(self)@),
            ends_as(final(self)@, r, edit_description_step(old(self)@, text@, index)),
    {
        match Self::description(text) {
            Ok(d) => {
                let ghost before = self@.todos;
                edit_todo(&mut self.todos, index, self.draft.clone(), d);
                self.stage = Stage::Menu;
                assert(all_valid(self@.todos)) by {
                    assert forall|i: int| 0 <= i < self@.todos.len() implies valid_todo(
                        #[trigger] self@.todos[i],
                    ) by {
                        if i != index - 1 {
                            assert(self@.todos[i] == before[i]);
                        }
                    }
                }
                printing(one_line("Todo is edited!"))
            },
            Err(c) => {
                let line = rejection_line(c, 0, DESCRIPTION_MAX);
                printing(one_line(line.as_str()))
            },
        }
    }

    fn on_index_rejected(&mut self, text: &str, input: IndexInput) -> (r: Reply)
        requires
            session_ok(old(self)@),
            input == index_input_of(text@, old(self)@.todos.len()),
            !(input is Pick),
        ensures
            session_ok(final(self)@),
            ends_as(final(self)@, r, index_rejected(old(self)@, text@).unwrap()),
    {
        match input {
            IndexInput::Cancel => {
                self.stage = Stage::Menu;
                printing(no_lines())
            },
            _ => printing(one_line("Invalid input, please try again")),
        }
    }

    fn on_mark(&mut self, text: &str, complete: bool) -> (r: Reply)
        requires
            session_ok(old(self)@),
            old(self)@.stage == (Stage::MarkIndex { complete }),
        ensures
            session_ok(final(self)@),
            ends_as(final(self)@, r, mark_step(old(self)@, text@, complete)),
    {
        let input = index_input(text, self.todos.len());
        match input {
            IndexInput::Pick(k) => {
                let ghost before = self@.todos;
                let changed = mark_todo(&mut self.todos, k, complete);
                assert(all_valid(self@.todos)) by {
                    assert forall|i: int| 0 <= i < self@.todos.len() implies valid_todo(
                        #[trigger] self@.todos[i],
                    ) by {
                        assert(valid_todo(before[i]));
                    }
                }
                if !changed {
                    assert(self@.todos =~= before);
                    if complete {
                        printing(one_line("This todo is already marked as completed"))
                    } else {
                        printing(one_line("This todo is already marked as incompleted"))
                    }
                } else {
                    self.stage = Stage::Menu;
                    if complete {
                        printing(one_line("Todo marked as done"))
                    } else {
                        printing(one_line("Todo marked as incomplete"))
                    }
                }
            },
            _ => self.on_index_rejected(text, input),
        }
    }

    fn on_pick(&mut self, text: &str, edit: bool) -> (r: Reply)
        requires
            session_ok(old(self)@),
        ensures
            session_ok(final(self)@),
            ends_as(final(self)@, r, pick_step(old(self)@, text@, edit)),
    {
        let input = index_input(text, self.todos.len());
        match input {
            IndexInput::Pick(k) => {
                if edit {
                    self.stage = Stage::EditTitle { index: k };
                } else {
                    self.stage = Stage::DeleteConfirm { index: k };
                }
                printing(no_lines())
            },
            _ => self.on_index_rejected(text, input),
        }
    }

    fn on_confirm(&mut self, text: &str, index: usize) -> (r: Reply)
        requires
            session_ok(old(self)@),
            old(self)@.stage == (Stage::DeleteConfirm { index }),
        ensures
            session_ok(final(self)@),
            ends_as(final(self)@, r, confirm_step(old(self)@, text@, index)),
    {
        let check = check_text(text, 1, 1);
        if check == TextCheck::Accept && confirms_deletion(text) {
            let ghost before = self@.todos;
            delete_todo(&mut self.todos, index);
            self.stage = Stage::Menu;
            assert(all_valid(self@.todos)) by {
                assert forall|i: int| 0 <= i < self@.todos.len() implies valid_todo(
                    #[trigger] self@.todos[i],
                ) by {
                    if i < index - 1 {
                        assert(self@.todos[i] == before[i]);
                    } else {
                        assert(self@.todos[i] == before[i + 1]);
                    }
                }
            }
            printing(one_line("Todo deleted successfully"))
        } else if check == TextCheck::Accept || check == TextCheck::Cancel {
            self.stage = Stage::Menu;
            printing(one_line("Todo not deleted"))
        } else {
            let line = rejection_line(check, 1, 1);
            printing(one_line(line.as_str()))
        }
    }

    fn on_export(&mut self, text: &str) -> (r: Reply)
        requires
            session_ok(old(self)@),
        ensures
            session_ok(final(self)@),
            ends_as(final(self)@, r, export_step(old(self)@, text@)),
    {
        let check = check_text(text, 1, 2);
        match check {
            TextCheck::Cancel => {
                self.stage = Stage::Menu;
                printing(one_line("Export cancelled"))
            },
            TextCheck::Accept => {
                self.stage = Stage::Menu;
                match format_from_selector(text) {
                    Some(f) => Reply { lines: no_lines(), error: None, export: Some(f) },
                    None => Reply {
                        lines: no_lines(),
                        error: Some(String::from_str("Invalid input")),
                        export: None,
                    },
                }
            },
            _ => {
                let line = rejection_line(check, 1, 2);
                printing(one_line(line.as_str()))
            },
        }
    }

    /// Handles one line of input: it is trimmed, then answers whatever the
    /// session asked last.
    pub fn handle_line(&mut self, line: &str) -> (r: Reply)
        requires
            session_ok(old(self)@),
        ensures
            session_ok(final(self)@),
            ends_as(final(self)@, r, step_of(old(self)@, trimmed(line@))),
    {
        let text = trim(line);
        match self.stage {
            Stage::Menu => self.on_menu(text),
            Stage::AddTitle => self.on_title(text, Stage::AddDescription, "Cancelled creating new todo"),
            Stage::AddDescription => self.on_add_description(text),
            Stage::MarkIndex { complete } => self.on_mark(text, complete),
            Stage::EditIndex => self.on_pick(text, true),
            Stage::EditTitle { index } => self.on_title(
                text,
                Stage::EditDescription { index },
                "Cancelled editing the todo",
            ),
            Stage::EditDescription { index } => self.on_edit_description(text, index),
            Stage::DeleteIndex => self.on_pick(text, false),
            Stage::DeleteConfirm { index } => self.on_confirm(text, index),
            Stage::ExportFormat => self.on_export(text),
            Stage::Finished => printing(no_lines()),
        }
    }

    /// The lines to show before the next line is read.
    pub fn prompt(&self) -> (r: Vec<String>)
        requires
            session_ok(self@),
        ensures
            lines_view(r@) == prompt_of(self@),
    {
        match self.stage {
            Stage::Menu => menu_lines(),
            Stage::AddTitle | Stage::EditTitle { .. } => one_line(
                "Enter the title (0 to go back to the menu)",
            ),
            Stage::AddDescription | Stage::EditDescription { .. } => one_line(
                "Enter the description (0 to leave it empty)",
            ),
            Stage::MarkIndex { complete } => {
                if complete {
                    self.listing_then(
                        "Which one do you want to mark as completed? Enter 0 to go back to the menu",
                    )
                } else {
                    self.listing_then(
                        "Which one do you want to mark as incomplete? Enter 0 to go back to the menu",
                    )
                }
            },
            Stage::EditIndex => self.listing_then(
                "Which one do you want to edit? Enter 0 to go back to the menu",
            ),
            Stage::DeleteIndex => self.listing_then(
                "Which one do you want to delete? Enter 0 to go back to the menu",
            ),
            Stage::DeleteConfirm { index } => {
                let mut r: Vec<String> = Vec::new();
                r.push(todo_line(index, &self.todos[index - 1]));
                r.push(String::from_str("Are you sure you want to delete this todo? (y/n)"));
                assert(lines_view(r@) =~= prompt_of(self@));
                r
            },
            Stage::ExportFormat => one_line(
                "Choose file format: (1) JSON, (2) Plain text. Enter 0 to go back to the menu",
            ),
            Stage::Finished => no_lines(),
        }
    }

    fn listing_then(&self, question: &str) -> (r: Vec<String>)
        ensures
            lines_view(r@) == listing_of(self@.todos).push(question@),
    {
        let mut r = listing(&self.todos);
        r.push(String::from_str(question));
        assert(lines_view(r@) =~= listing_of(self@.todos).push(question@));
        r
    }
}

} // verus!
