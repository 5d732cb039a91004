use vstd::prelude::*;

use crate::menu::{choice_of, options};
use crate::session::{
    add_cancelled_text, already_text, description_of, edited_text, is_yes, mark_prompt,
    prompt_of, session_ok, step_of, Outcome, SessionView, Stage,
};
use crate::store::{listing_of, view_of};
use crate::text::{
    cancel_text, index_input_of, lemma_trimmed_idempotent, text_check, trimmed, IndexInput, TextCheck,
};
use crate::todo::{line_of, TodoView, TITLE_MAX};

verus! {

/// The session that an outcome leaves.
pub open spec fn after(o: Outcome) -> SessionView {
    SessionView { todos: o.todos, stage: o.stage, draft: o.draft }
}

/// A text is accepted exactly when it is not the cancel sentinel, not empty, and
/// its length lies within the bounds. On a title prompt the line is trimmed
/// first: an accepted title is that trimmed text, which trimming leaves as it
/// is; a rejected one leaves the session as it was, so the prompt comes again.
pub proof fn law_prompt_string_accepts(
    t: Seq<char>,
    min_len: nat,
    max_len: nat,
    s: SessionView,
    line: Seq<char>,
)
    ensures
        (text_check(t, min_len, max_len) == TextCheck::Accept) <==> (t.len() > 0 && t
            != cancel_text() && min_len <= t.len() <= max_len),
        (s.stage == Stage::AddTitle || s.stage is EditTitle) ==> {
            let text = trimmed(line);
            let o = step_of(s, text);
            let check = text_check(text, 1, TITLE_MAX as nat);
            &&& check == TextCheck::Accept ==> {
                &&& o.draft == text
                &&& trimmed(o.draft) == o.draft
                &&& 1 <= o.draft.len() <= TITLE_MAX
                &&& o.draft != cancel_text()
                &&& o.todos == s.todos
            }
            &&& check != TextCheck::Accept && check != TextCheck::Cancel ==> {
                &&& o.todos == s.todos
                &&& o.stage == s.stage
                &&& o.draft == s.draft
                &&& o.export is None
            }
        },
{
    lemma_trimmed_idempotent(line);
}

/// Adding an entry (menu `1`, a title, a description) and then viewing (menu `2`)
/// shows the new entry last, at the position after the old ones, not completed;
/// on an empty list it is the only line, at position 1.
pub proof fn law_add_todo_then_view(s: SessionView, title: Seq<char>, description: Seq<char>)
    requires
        s.stage == Stage::Menu,
        text_check(title, 1, TITLE_MAX as nat) == TextCheck::Accept,
        description_of(description) is Some,
    ensures
        ({
            let o1 = step_of(s, seq!['1']);
            let o2 = step_of(after(o1), title);
            let o3 = step_of(after(o2), description);
            let o4 = step_of(after(o3), seq!['2']);
            let added = TodoView {
                title,
                description: description_of(description).unwrap(),
                completed: false,
            };
            &&& o3.todos == s.todos.push(added)
            &&& o4.todos == o3.todos
            &&& o4.lines.len() == s.todos.len() + 1
            &&& o4.lines.last() == line_of((s.todos.len() + 1) as nat, added)
            &&& s.todos.len() == 0 ==> o4.lines == seq![line_of(1, added)]
        }),
{
    assert(choice_of(seq!['1']) == Some(options()[0]));
    assert(choice_of(seq!['2']) == Some(options()[1]));
    let o3 = step_of(after(step_of(after(step_of(s, seq!['1'])), title)), description);
    assert(view_of(o3.todos) == listing_of(o3.todos));
    let added = TodoView {
        title,
        description: description_of(description).unwrap(),
        completed: false,
    };
    if s.todos.len() == 0 {
        assert(listing_of(o3.todos) =~= seq![line_of(1, added)]);
    }
}

/// Asking to mark an entry as completed that already is changes nothing,
/// answers with the "already marked" notice, and asks again under the listing.
pub proof fn law_mark_todo_complete_already_done(s: SessionView, t: Seq<char>, k: usize)
    requires
        s.stage == (Stage::MarkIndex { complete: true }),
        1 <= k <= s.todos.len(),
        s.todos[k - 1].completed,
        index_input_of(t, s.todos.len()) == IndexInput::Pick(k),
    ensures
        ({
            let o = step_of(s, t);
            &&& o.todos == s.todos
            &&& o.stage == s.stage
            &&& o.lines == seq![already_text(true)]
            &&& o.error is None
            &&& prompt_of(after(o)) == listing_of(s.todos).push(mark_prompt(true))
        }),
{
}

/// Confirming the deletion of position `k` of `n` entries leaves `n - 1`: those
/// before `k` stay where they were, those after it move up by one.
pub proof fn law_delete_todo_shifts(s: SessionView, t: Seq<char>, k: usize)
    requires
        session_ok(s),
        s.stage == (Stage::DeleteConfirm { index: k }),
        is_yes(t),
    ensures
        ({
            let o = step_of(s, t);
            &&& o.todos.len() == s.todos.len() - 1
            &&& forall|i: int| 0 <= i < k - 1 ==> #[trigger] o.todos[i] == s.todos[i]
            &&& forall|i: int| k - 1 <= i < o.todos.len() ==> #[trigger] o.todos[i] == s.todos[i
                + 1]
        }),
{
    assert(t.len() == 1 && t != cancel_text());
}

/// Editing position `k` changes only the title and description there; its
/// completion flag and every other entry stay.
pub proof fn law_edit_todo_keeps_completed(s: SessionView, t: Seq<char>, k: usize)
    requires
        session_ok(s),
        s.stage == (Stage::EditDescription { index: k }),
        description_of(t) is Some,
    ensures
        ({
            let o = step_of(s, t);
            &&& o.todos.len() == s.todos.len()
            &&& o.todos[k - 1] == (TodoView {
                title: s.draft,
                description: description_of(t).unwrap(),
                completed: s.todos[k - 1].completed,
            })
            &&& forall|i: int| 0 <= i < s.todos.len() && i != k - 1 ==> #[trigger] o.todos[i]
                == s.todos[i]
            &&& o.lines == seq![edited_text()]
        }),
{
}

/// Entering `0` at the title prompt of an addition leaves the list as it was and
/// prints the cancellation notice.
pub proof fn law_add_todo_cancelled(s: SessionView)
    requires
        s.stage == Stage::AddTitle,
    ensures
        ({
            let o = step_of(s, cancel_text());
            &&& o.todos == s.todos
            &&& o.stage == Stage::Menu
            &&& o.lines == seq![add_cancelled_text()]
            &&& o.error is None
            &&& o.export is None
        }),
{
}

} // verus!
