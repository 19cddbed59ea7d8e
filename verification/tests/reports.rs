use std::rc::Rc;
use toggl_rs::project::Project;
use toggl_rs::report::{
    context_switches, day_start, elapsed, format_duration, is_running, stored_entries,
    sum_seconds,
};
use toggl_rs::timestamp::Timestamp;
use toggl_rs::types::{Guid, TimeEntry};
use toggl_rs::workspace::Workspace;

fn entry(id: i64, project: Option<&Rc<Project>>, start: i64, stop: Option<i64>) -> TimeEntry {
    TimeEntry {
        id,
        guid: Guid(0),
        workspace: Rc::new(Workspace::new(1, "w".to_string())),
        client: None,
        project: project.cloned(),
        start: Timestamp::new(start, 0),
        stop: stop.map(|s| Timestamp::new(s, 0)),
        duration: 0,
        description: None,
        duronly: false,
        at: Timestamp::new(0, 0),
    }
}

#[test]
fn durations_below_an_hour_show_minutes() {
    assert_eq!(format_duration(0), "0 m");
    assert_eq!(format_duration(59), "0 m");
    assert_eq!(format_duration(60), "1 m");
    assert_eq!(format_duration(2_520), "42 m");
    assert_eq!(format_duration(3_599), "59 m");
    assert_eq!(format_duration(-59), "0 m");
    assert_eq!(format_duration(-60), "-1 m");
    assert_eq!(format_duration(-3_599), "-59 m");
}

#[test]
fn durations_from_an_hour_on_show_hours_and_minutes() {
    assert_eq!(format_duration(3_600), " 1:00 h");
    assert_eq!(format_duration(3_900), " 1:05 h");
    assert_eq!(format_duration(3_959), " 1:05 h");
    assert_eq!(format_duration(45_240), "12:34 h");
    assert_eq!(format_duration(360_000 + 59 * 60), "100:59 h");
    assert_eq!(format_duration(i64::MAX), "2562047788015215:30 h");
}

#[test]
fn durations_of_an_hour_or_more_backwards_show_nothing() {
    assert_eq!(format_duration(-3_600), "");
    assert_eq!(format_duration(-100_000), "");
    assert_eq!(format_duration(i64::MIN), "");
}

#[test]
fn elapsed_counts_whole_seconds_from_start_to_stop() {
    assert_eq!(elapsed(&entry(1, None, 1_577_836_800, Some(1_577_836_860))), Some(60));
    assert_eq!(elapsed(&entry(1, None, 1_577_836_800, Some(1_577_836_800))), Some(0));
    assert_eq!(elapsed(&entry(1, None, 1_577_836_860, Some(1_577_836_800))), Some(-60));
    let mut e = entry(1, None, 100, Some(102));
    e.start = Timestamp::new(100, 900_000_000);
    e.stop = Some(Timestamp::new(102, 100_000_000));
    assert_eq!(elapsed(&e), Some(1));
    e.stop = Some(Timestamp::new(99, 100_000_000));
    assert_eq!(elapsed(&e), Some(-1));
}

#[test]
fn elapsed_of_a_running_entry_is_none() {
    let e = entry(1, None, 1_577_836_800, None);
    assert!(is_running(&e));
    assert_eq!(elapsed(&e), None);
    assert!(!is_running(&entry(1, None, 1, Some(2))));
}

#[test]
fn elapsed_of_an_instant_out_of_range_is_none() {
    assert_eq!(elapsed(&entry(1, None, i64::MIN, Some(0))), None);
    assert_eq!(elapsed(&entry(1, None, 0, Some(i64::MAX))), None);
}

#[test]
fn sums_by_project_and_in_total() {
    let a = Rc::new(Project::new(1, "a".to_string(), false, true, None));
    let b = Rc::new(Project::new(2, "b".to_string(), false, true, None));
    let entries = vec![
        entry(1, Some(&a), 1_000, Some(1_060)),
        entry(2, Some(&b), 2_000, Some(2_600)),
        entry(3, None, 3_000, Some(3_007)),
        entry(4, Some(&a), 4_000, Some(4_030)),
    ];
    assert_eq!(sum_seconds(&entries, None), Some(697));
    assert_eq!(sum_seconds(&entries, Some(&a)), Some(90));
    assert_eq!(sum_seconds(&entries, Some(&b)), Some(600));
    let other = Project::new(3, "c".to_string(), false, true, None);
    assert_eq!(sum_seconds(&entries, Some(&other)), Some(0));
    let same_id = Project::new(1, "renamed".to_string(), false, true, None);
    assert_eq!(sum_seconds(&entries, Some(&same_id)), Some(0));
    assert_eq!(sum_seconds(&[], None), Some(0));
}

#[test]
fn sum_with_a_running_entry_that_counts_is_none() {
    let a = Rc::new(Project::new(1, "a".to_string(), false, true, None));
    let b = Rc::new(Project::new(2, "b".to_string(), false, true, None));
    let entries =
        vec![entry(1, Some(&a), 1_000, Some(1_060)), entry(2, Some(&b), 2_000, None)];
    assert_eq!(sum_seconds(&entries, None), None);
    assert_eq!(sum_seconds(&entries, Some(&b)), None);
    assert_eq!(sum_seconds(&entries, Some(&a)), Some(60));
}

#[test]
fn stored_entries_leave_the_running_one_out() {
    let entries = || vec![entry(1, None, 1, Some(2)), entry(2, None, 3, None)];
    let ids = |v: Vec<TimeEntry>| v.iter().map(|e| e.id).collect::<Vec<i64>>();
    assert_eq!(ids(stored_entries(entries(), true)), vec![1]);
    assert_eq!(ids(stored_entries(entries(), false)), vec![1, 2]);
    assert!(stored_entries(Vec::new(), true).is_empty());
    assert!(stored_entries(Vec::new(), false).is_empty());
}

#[test]
fn context_switches_are_one_less_than_entries() {
    assert_eq!(context_switches(0), 0);
    assert_eq!(context_switches(1), 0);
    assert_eq!(context_switches(2), 1);
    assert_eq!(context_switches(10), 9);
}

#[test]
fn day_start_is_midnight_in_utc() {
    assert_eq!(day_start(Timestamp::new(1_577_836_800, 0)), Timestamp::new(1_577_836_800, 0));
    assert_eq!(
        day_start(Timestamp::new(1_577_836_800 + 86_399, 999_999_999)),
        Timestamp::new(1_577_836_800, 0)
    );
    assert_eq!(day_start(Timestamp::new(1_577_923_200, 5)), Timestamp::new(1_577_923_200, 0));
    assert_eq!(day_start(Timestamp::new(0, 0)), Timestamp::new(0, 0));
    assert_eq!(day_start(Timestamp::new(-1, 0)), Timestamp::new(-86_400, 0));
    assert_eq!(day_start(Timestamp::new(-86_400, 7)), Timestamp::new(-86_400, 0));
    assert_eq!(day_start(Timestamp::new(-86_401, 0)), Timestamp::new(-172_800, 0));
}
