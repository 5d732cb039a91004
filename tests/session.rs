use todo_list::session::{confirms_deletion, Session, Stage};
use todo_list::store::FileFormat;

fn send(s: &mut Session, line: &str) -> Vec<String> {
    let reply = s.handle_line(line);
    assert_eq!(reply.export, None);
    assert_eq!(reply.error, None);
    reply.lines
}

fn add(s: &mut Session, title: &str, description: &str) {
    assert!(send(s, "1").is_empty());
    assert!(send(s, title).is_empty());
    assert!(send(s, description).is_empty());
    assert_eq!(s.stage(), Stage::Menu);
}

#[test]
fn add_then_view_shows_the_record_first() {
    let mut s = Session::new();
    add(&mut s, "Buy milk", "2%");
    assert_eq!(send(&mut s, "2"), vec!["1. Buy milk - 2% [ ]"]);
    assert_eq!(s.todos().len(), 1);
    assert!(!s.todos()[0].completed);
}

#[test]
fn lines_are_trimmed() {
    let mut s = Session::new();
    assert!(send(&mut s, "  1 \n").is_empty());
    assert_eq!(s.stage(), Stage::AddTitle);
    send(&mut s, "\t Walk the dog  \r\n");
    send(&mut s, "  \n");
    send(&mut s, " outside\n");
    assert_eq!(send(&mut s, "2\n"), vec!["1. Walk the dog - outside [ ]"]);
}

#[test]
fn viewing_empty_list() {
    let mut s = Session::new();
    assert_eq!(send(&mut s, "2"), vec!["No todos found."]);
}

#[test]
fn cancelling_add_prints_notice() {
    let mut s = Session::new();
    send(&mut s, "1");
    assert_eq!(send(&mut s, "0"), vec!["Cancelled creating new todo"]);
    assert_eq!(s.stage(), Stage::Menu);
    assert_eq!(s.todos().len(), 0);
}

#[test]
fn description_cancel_leaves_it_empty() {
    let mut s = Session::new();
    send(&mut s, "1");
    send(&mut s, "Title");
    assert_eq!(send(&mut s, ""), vec!["Input cannot be empty."]);
    assert_eq!(s.stage(), Stage::AddDescription);
    assert!(send(&mut s, "0").is_empty());
    assert_eq!(s.todos()[0].description, "");
}

#[test]
fn rejected_title_asks_again() {
    let mut s = Session::new();
    send(&mut s, "1");
    let long = "t".repeat(51);
    assert_eq!(send(&mut s, &long), vec!["Input must be at most 50 characters."]);
    assert_eq!(s.stage(), Stage::AddTitle);
    assert_eq!(send(&mut s, "   "), vec!["Input cannot be empty."]);
    assert_eq!(s.stage(), Stage::AddTitle);
    assert!(send(&mut s, "ok").is_empty());
    assert_eq!(s.stage(), Stage::AddDescription);
}

#[test]
fn long_description_is_rejected() {
    let mut s = Session::new();
    send(&mut s, "1");
    send(&mut s, "t");
    let long = "d".repeat(251);
    assert_eq!(send(&mut s, &long), vec!["Input must be at most 250 characters."]);
    let max = "d".repeat(250);
    assert!(send(&mut s, &max).is_empty());
    assert_eq!(s.todos()[0].description.len(), 250);
}

#[test]
fn marking_complete_twice_reports_already_marked() {
    let mut s = Session::new();
    add(&mut s, "a", "x");
    assert!(send(&mut s, "3").is_empty());
    assert_eq!(s.stage(), Stage::MarkIndex { complete: true });
    assert_eq!(send(&mut s, "1"), vec!["Todo marked as done"]);
    assert!(s.todos()[0].completed);
    send(&mut s, "3");
    assert_eq!(send(&mut s, "1"), vec!["This todo is already marked as completed"]);
    assert_eq!(s.stage(), Stage::MarkIndex { complete: true });
    assert!(s.todos()[0].completed);
    assert!(send(&mut s, "0").is_empty());
    assert_eq!(s.stage(), Stage::Menu);
}

#[test]
fn marking_incomplete() {
    let mut s = Session::new();
    add(&mut s, "a", "x");
    send(&mut s, "4");
    assert_eq!(send(&mut s, "1"), vec!["This todo is already marked as incompleted"]);
    send(&mut s, "0");
    send(&mut s, "3");
    send(&mut s, "1");
    send(&mut s, "4");
    assert_eq!(send(&mut s, "1"), vec!["Todo marked as incomplete"]);
    assert!(!s.todos()[0].completed);
}

#[test]
fn actions_on_empty_list_report_nothing_saved() {
    let mut s = Session::new();
    for choice in ["3", "4", "5", "6"] {
        assert_eq!(send(&mut s, choice), vec!["You have no todos saved"]);
        assert_eq!(s.stage(), Stage::Menu);
    }
}

#[test]
fn bad_positions_ask_again() {
    let mut s = Session::new();
    add(&mut s, "a", "x");
    send(&mut s, "3");
    assert_eq!(send(&mut s, "5"), vec!["Invalid input, please try again"]);
    assert_eq!(send(&mut s, "z"), vec!["Invalid input, please try again"]);
    assert_eq!(send(&mut s, "100"), vec!["Invalid input, please try again"]);
    assert_eq!(send(&mut s, ""), vec!["Invalid input, please try again"]);
    assert_eq!(s.stage(), Stage::MarkIndex { complete: true });
    assert!(send(&mut s, "00").is_empty());
    assert_eq!(s.stage(), Stage::Menu);
}

#[test]
fn editing_keeps_completion() {
    let mut s = Session::new();
    add(&mut s, "a", "x");
    add(&mut s, "b", "y");
    send(&mut s, "3");
    send(&mut s, "1");
    send(&mut s, "5");
    assert!(send(&mut s, "1").is_empty());
    assert_eq!(s.stage(), Stage::EditTitle { index: 1 });
    send(&mut s, "new title");
    assert_eq!(send(&mut s, "new description"), vec!["Todo is edited!"]);
    assert_eq!(s.todos()[0].title, "new title");
    assert_eq!(s.todos()[0].description, "new description");
    assert!(s.todos()[0].completed);
    assert_eq!(s.todos()[1].title, "b");
}

#[test]
fn cancelling_edit_changes_nothing() {
    let mut s = Session::new();
    add(&mut s, "a", "x");
    send(&mut s, "5");
    send(&mut s, "1");
    assert_eq!(send(&mut s, "0"), vec!["Cancelled editing the todo"]);
    assert_eq!(s.todos()[0].title, "a");
    assert_eq!(s.stage(), Stage::Menu);
}

#[test]
fn deleting_shifts_positions() {
    let mut s = Session::new();
    add(&mut s, "a", "1");
    add(&mut s, "b", "2");
    add(&mut s, "c", "3");
    send(&mut s, "6");
    send(&mut s, "2");
    assert_eq!(s.prompt(), vec!["2. b - 2 [ ]", "Are you sure you want to delete this todo? (y/n)"]);
    assert_eq!(send(&mut s, "Y"), vec!["Todo deleted successfully"]);
    assert_eq!(send(&mut s, "2"), vec!["1. a - 1 [ ]", "2. c - 3 [ ]"]);
}

#[test]
fn declining_deletion_keeps_the_list() {
    let mut s = Session::new();
    add(&mut s, "a", "1");
    send(&mut s, "6");
    send(&mut s, "1");
    assert_eq!(send(&mut s, "yes"), vec!["Input must be at most 1 characters."]);
    assert_eq!(send(&mut s, "n"), vec!["Todo not deleted"]);
    assert_eq!(s.stage(), Stage::Menu);
    assert_eq!(s.todos().len(), 1);
}

#[test]
fn confirmation_answers() {
    assert!(confirms_deletion("y"));
    assert!(confirms_deletion("Y"));
    assert!(!confirms_deletion("n"));
    assert!(!confirms_deletion("yy"));
    assert!(!confirms_deletion(""));
}

#[test]
fn export_selector() {
    let mut s = Session::new();
    add(&mut s, "Buy milk", "2%");
    send(&mut s, "7");
    assert_eq!(s.stage(), Stage::ExportFormat);
    let reply = s.handle_line("2");
    assert!(reply.lines.is_empty());
    assert_eq!(reply.export, Some(FileFormat::Text));
    send(&mut s, "7");
    assert_eq!(s.handle_line("1").export, Some(FileFormat::Json));
    send(&mut s, "7");
    let reply = s.handle_line("3");
    assert!(reply.lines.is_empty());
    assert_eq!(reply.export, None);
    assert_eq!(reply.error, Some("Invalid input".to_string()));
    assert_eq!(s.stage(), Stage::Menu);
    assert_eq!(s.todos().len(), 1);
    send(&mut s, "7");
    assert_eq!(send(&mut s, "0"), vec!["Export cancelled"]);
    assert_eq!(s.stage(), Stage::Menu);
}

#[test]
fn invalid_menu_choice() {
    let mut s = Session::new();
    assert_eq!(send(&mut s, "9"), vec!["Invalid input, please try again"]);
    assert_eq!(send(&mut s, "add"), vec!["Invalid input, please try again"]);
    assert_eq!(s.stage(), Stage::Menu);
}

#[test]
fn quitting_finishes() {
    let mut s = Session::new();
    assert!(!s.is_finished());
    assert_eq!(send(&mut s, "8"), vec!["Goodbye!"]);
    assert!(s.is_finished());
    assert!(send(&mut s, "1").is_empty());
    assert!(s.is_finished());
}

#[test]
fn prompts_follow_the_stage() {
    let mut s = Session::new();
    assert_eq!(s.prompt()[1], "1. Add a new todo");
    add(&mut s, "a", "x");
    send(&mut s, "3");
    assert_eq!(
        s.prompt(),
        vec![
            "1. a - x [ ]",
            "Which one do you want to mark as completed? Enter 0 to go back to the menu",
        ]
    );
    send(&mut s, "0");
    send(&mut s, "1");
    assert_eq!(s.prompt(), vec!["Enter the title (0 to go back to the menu)"]);
    send(&mut s, "0");
    send(&mut s, "8");
    assert!(s.prompt().is_empty());
}

#[test]
fn three_digit_positions_can_be_picked() {
    let mut s = Session::new();
    for i in 0..100 {
        add(&mut s, &format!("t{}", i), "0");
    }
    send(&mut s, "3");
    assert_eq!(send(&mut s, "100"), vec!["Todo marked as done"]);
    assert!(s.todos()[99].completed);
    send(&mut s, "6");
    assert_eq!(send(&mut s, "101"), vec!["Invalid input, please try again"]);
    send(&mut s, "0");
}
