use std::rc::Rc;
use toggl_rs::command::{
    plan_delete, plan_edit, plan_start, plan_stop, plan_swap, started_message, Command,
    CommandError, Flags,
};
use toggl_rs::project::Project;
use toggl_rs::timestamp::Timestamp;
use toggl_rs::types::{Guid, TimeEntry};
use toggl_rs::workspace::Workspace;

fn entry(id: i64, start: i64) -> TimeEntry {
    TimeEntry {
        id,
        guid: Guid(0),
        workspace: Rc::new(Workspace::new(1, "w".to_string())),
        client: None,
        project: None,
        start: Timestamp::new(start, 0),
        stop: Some(Timestamp::new(start + 1, 0)),
        duration: 1,
        description: Some("old".to_string()),
        duronly: false,
        at: Timestamp::new(0, 0),
    }
}

fn projects() -> Vec<Rc<Project>> {
    vec![
        Rc::new(Project::new(10, "a".to_string(), false, true, None)),
        Rc::new(Project::new(11, "b".to_string(), false, true, None)),
    ]
}

fn strings(v: &[&str]) -> Vec<String> {
    v.iter().map(|s| s.to_string()).collect()
}

fn flags() -> Flags {
    Flags { start: None, stop: false, swap: false, delete: None, edit: None }
}

#[test]
fn flags_stand_for_the_first_operation_given() {
    assert!(matches!(flags().command(), Command::Nothing));
    let all = Flags {
        start: Some(strings(&["t"])),
        stop: true,
        swap: true,
        delete: Some("1".to_string()),
        edit: Some(strings(&["1", "d", "0"])),
    };
    assert!(matches!(all.command(), Command::Start(v) if v == strings(&["t"])));
    let f = Flags { stop: true, swap: true, delete: Some("1".to_string()), ..flags() };
    assert!(matches!(f.command(), Command::Stop));
    let f = Flags { swap: true, delete: Some("1".to_string()), ..flags() };
    assert!(matches!(f.command(), Command::Swap));
    let f = Flags { delete: Some("1".to_string()), edit: Some(Vec::new()), ..flags() };
    assert!(matches!(f.command(), Command::Delete(id) if id == "1"));
    let f = Flags { edit: Some(strings(&["1", "d", "0"])), ..flags() };
    assert!(matches!(f.command(), Command::Edit(v) if v.len() == 3));
}

#[test]
fn error_messages() {
    assert_eq!(CommandError::NotRunning.message(), "No time entry currently running");
    assert_eq!(CommandError::NothingToSwap.message(), "Not enough entries stored to swap");
    assert_eq!(
        CommandError::NoSuchEntry.message(),
        "You tried to delete and entry that does not exist"
    );
    assert_eq!(CommandError::BadEntryNumber.message(), "Could not parse id");
    assert_eq!(CommandError::NothingToEdit.message(), "Not enough entries stored to edit");
    assert_eq!(CommandError::BadEditArguments.message(), "Argument requirement not fulfilled");
    assert_eq!(CommandError::BadEditNumber.message(), "Could not parse values");
}

#[test]
fn start_reads_description_and_project() {
    let plan = plan_start(&strings(&["write", "1"]), 2);
    assert_eq!(plan.title.as_deref(), Some("write"));
    assert_eq!(plan.project, Some(1));
    let plan = plan_start(&strings(&["write"]), 2);
    assert_eq!(plan.title.as_deref(), Some("write"));
    assert_eq!(plan.project, None);
    let plan = plan_start(&Vec::new(), 2);
    assert_eq!(plan.title, None);
    assert_eq!(plan.project, None);
}

#[test]
fn start_without_a_project_where_none_is_named() {
    assert_eq!(plan_start(&strings(&["write", "2"]), 2).project, None);
    assert_eq!(plan_start(&strings(&["write", "x"]), 2).project, None);
    assert_eq!(plan_start(&strings(&["write", "-1"]), 2).project, None);
    assert_eq!(plan_start(&strings(&["write", "0"]), 0).project, None);
    assert_eq!(plan_start(&strings(&["write", "0"]), 1).project, Some(0));
}

#[test]
fn started_message_names_description_and_project() {
    assert_eq!(
        started_message(&Some("write".to_string()), Some("book")),
        "Started Time Entry: write for Project book"
    );
    assert_eq!(started_message(&None, None), "Started Time Entry:  for Project ");
}

#[test]
fn stop_wants_a_running_entry() {
    assert!(matches!(plan_stop(None), Err(CommandError::NotRunning)));
    assert!(matches!(plan_stop(Some(entry(4, 1))), Ok(e) if e.id == 4));
}

#[test]
fn swap_restarts_the_entry_that_started_last() {
    assert_eq!(plan_swap(&[]), Err(CommandError::NothingToSwap));
    assert_eq!(plan_swap(&[entry(1, 5)]), Ok(0));
    assert_eq!(plan_swap(&[entry(1, 5), entry(2, 9), entry(3, 7)]), Ok(1));
    assert_eq!(plan_swap(&[entry(1, 9), entry(2, 9)]), Ok(0));
}

#[test]
fn delete_counts_entries_from_one() {
    assert_eq!(plan_delete("1", 3), Ok(0));
    assert_eq!(plan_delete("3", 3), Ok(2));
    assert_eq!(plan_delete("+2", 3), Ok(1));
    assert_eq!(plan_delete("4", 3), Err(CommandError::NoSuchEntry));
    assert_eq!(plan_delete("0", 3), Err(CommandError::NoSuchEntry));
    assert_eq!(plan_delete("1", 0), Err(CommandError::NoSuchEntry));
    assert_eq!(plan_delete("x", 3), Err(CommandError::BadEntryNumber));
    assert_eq!(plan_delete("", 3), Err(CommandError::BadEntryNumber));
    assert_eq!(plan_delete("-1", 3), Err(CommandError::BadEntryNumber));
}

#[test]
fn edit_changes_description_and_project() {
    let entries = vec![entry(1, 5), entry(2, 9)];
    let ps = projects();
    let edited = plan_edit(&strings(&["2", "new", "1"]), &entries, &ps).unwrap();
    assert_eq!(edited.id, 2);
    assert_eq!(edited.description.as_deref(), Some("new"));
    assert!(Rc::ptr_eq(edited.project.as_ref().unwrap(), &ps[1]));
    assert_eq!(edited.start, entries[1].start);
    assert_eq!(edited.stop, entries[1].stop);
    assert!(Rc::ptr_eq(&edited.workspace, &entries[1].workspace));
    assert_eq!(entries[1].description.as_deref(), Some("old"));
}

#[test]
fn edit_refuses_what_it_cannot_do() {
    let entries = vec![entry(1, 5), entry(2, 9)];
    let ps = projects();
    let err = |values: &[&str], entries: &[TimeEntry]| {
        plan_edit(&strings(values), entries, &ps).err()
    };
    assert_eq!(err(&["1", "new", "0"], &[]), Some(CommandError::NothingToEdit));
    assert_eq!(err(&["x", "new", "0"], &[]), Some(CommandError::NothingToEdit));
    assert_eq!(err(&["x", "new", "0"], &entries), Some(CommandError::BadEditNumber));
    assert_eq!(err(&[], &entries), Some(CommandError::BadEditNumber));
    assert_eq!(err(&["3", "new", "0"], &entries), Some(CommandError::BadEditArguments));
    assert_eq!(err(&["0", "new", "0"], &entries), Some(CommandError::BadEditArguments));
    assert_eq!(err(&["1", "new", "2"], &entries), Some(CommandError::BadEditArguments));
    assert_eq!(err(&["1", "new", "x"], &entries), Some(CommandError::BadEditArguments));
    assert_eq!(err(&["1", "new"], &entries), Some(CommandError::BadEditArguments));
    assert_eq!(err(&["1"], &entries), Some(CommandError::BadEditArguments));
    assert_eq!(err(&["1", "new", "0"], &entries), None);
}
