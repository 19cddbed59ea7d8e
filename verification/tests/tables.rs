use std::rc::Rc;
use toggl_rs::auth::{InitResponse, LoginOutcome, UserJSON};
use toggl_rs::error::TogglError;
use toggl_rs::ident::{has_unique_ids, position_by_id};
use toggl_rs::project::Project;
use toggl_rs::table::{
    current_line, project_line, projects_line, rule, table_row, total_line,
};
use toggl_rs::toggl::Toggl;
use toggl_rs::workspace::Workspace;

fn row(n: usize, a: &str, b: &str, d: &str, p: &str, t: &str) -> String {
    format!("|{:2} | {} | {} | {:<30} | {:^15} | {:>10} |", n, a, b, d, p, t)
}

#[test]
fn table_row_is_exact() {
    assert_eq!(
        table_row(3, "09:00", "10:15", "writing", "book", " 1:15 h"),
        "| 3 | 09:00 | 10:15 | writing                        |      book       |     1:15 h |"
    );
}

#[test]
fn table_row_pads_as_the_standard_formatter_does() {
    let long = "a description that is a good deal longer than thirty characters";
    for (n, d, p, t) in [
        (1, "", "", ""),
        (9, "x", "p", "5 m"),
        (10, "writing", "book", " 1:15 h"),
        (123, long, "a project name of more than fifteen", "100000:00 h and more"),
        (7, "\u{e9}t\u{e9} \u{4e2d}\u{6587}", "caf\u{e9}", "42 m"),
        (7, "abc", "even", "0123456789"),
        (7, "abc", "fifteen chars ok", "012345678"),
        (7, "abc", "fourteen chars", "0"),
    ] {
        assert_eq!(table_row(n, "09:00", "23:59", d, p, t), row(n, "09:00", "23:59", d, p, t));
    }
    assert_eq!(
        table_row(usize::MAX, "a", "b", "c", "d", "e"),
        row(usize::MAX, "a", "b", "c", "d", "e")
    );
}

#[test]
fn rule_is_as_wide_as_a_row() {
    let r = rule();
    assert_eq!(r.len(), 85);
    assert!(r.starts_with("+-") && r.ends_with("-+"));
    assert_eq!(r.len(), table_row(1, "09:00", "10:00", "", "", "").len());
}

#[test]
fn lines_below_the_table() {
    assert_eq!(project_line("book", " 1:15 h", "0.25"), "| book:  1:15 h (0.25%) ");
    assert_eq!(total_line(" 5:00 h", 3), "| Total:  5:00 h | Ctx: 3");
    assert_eq!(total_line("0 m", 0), "| Total: 0 m | Ctx: 0");
}

#[test]
fn line_of_the_running_entry() {
    assert_eq!(
        current_line("Running", "writing", "book", "09:00", "42 m"),
        "Running: writing@book, 09:00 Running for: 42 m"
    );
    assert_eq!(current_line("", "", "", "", ""), ": @,  Running for: ");
}

#[test]
fn list_of_the_projects() {
    assert_eq!(projects_line(&Vec::new()), "Projects: ");
    assert_eq!(
        projects_line(&vec!["a".to_string(), "b c".to_string(), "d".to_string()]),
        "Projects: 0: a, 1: b c, 2: d, "
    );
}

#[test]
fn unique_ids_are_told_from_repeated_ones() {
    let p = |id: i64| Rc::new(Project::new(id, "p".to_string(), false, true, None));
    assert!(has_unique_ids::<Project>(&[]));
    assert!(has_unique_ids(&[p(1)]));
    assert!(has_unique_ids(&[p(1), p(2), p(3)]));
    assert!(!has_unique_ids(&[p(1), p(2), p(1)]));
    assert!(!has_unique_ids(&[p(2), p(2)]));
    assert!(!has_unique_ids(&[p(1), p(2), p(3), p(3)]));
}

#[test]
fn position_by_id_gives_the_first_with_the_id() {
    let w = |id: i64| Rc::new(Workspace::new(id, "w".to_string()));
    let ws = [w(5), w(7), w(5), w(9)];
    assert_eq!(position_by_id(&ws, 5), Some(0));
    assert_eq!(position_by_id(&ws, 7), Some(1));
    assert_eq!(position_by_id(&ws, 9), Some(3));
    assert_eq!(position_by_id(&ws, 6), None);
    assert_eq!(position_by_id::<Workspace>(&[], 6), None);
}

#[test]
fn init_signs_in_and_asks_for_the_projects() {
    let reply = InitResponse {
        since: 0,
        data: UserJSON {
            fullname: "Ada".to_string(),
            workspaces: vec![
                Workspace::new(3, "three".to_string()),
                Workspace::new(1, "one".to_string()),
            ],
        },
    };
    let (t, requests) = Toggl::init("tok\n", LoginOutcome::Accepted(reply)).unwrap();
    assert_eq!(t.api_token, "tok");
    assert_eq!(t.user.fullname, "Ada");
    let urls: Vec<&str> = requests.iter().map(|r| r.url.as_str()).collect();
    assert_eq!(
        urls,
        vec![
            "https://www.toggl.com/api/v8/workspaces/3/projects",
            "https://www.toggl.com/api/v8/workspaces/1/projects"
        ]
    );
    assert!(requests.iter().all(|r| r.username == "tok"));
}

#[test]
fn init_of_a_refused_sign_in_is_an_auth_error() {
    let r = Toggl::init(
        "tok",
        LoginOutcome::Refused { status: 401, text: "no".to_string() },
    );
    assert!(matches!(
        r,
        Err(TogglError::AuthError(m)) if m == "Authentication not succeded: Status 401 Unauthorized, Text no"
    ));
}
