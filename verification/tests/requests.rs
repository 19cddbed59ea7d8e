use std::rc::Rc;
use toggl_rs::body::{
    entry_json_texts, frame_start_entry, frame_update_entry, join, start_entry_body,
    update_entry_body, EntryTexts,
};
use toggl_rs::project::Project;
use toggl_rs::request::{
    clients_url, current_url, entry_url, me_url, projects_url, range_query, start_url, stop_url,
    time_entries_url, Method, Request,
};
use toggl_rs::time_entry::TimeEntryExt;
use toggl_rs::timestamp::Timestamp;
use toggl_rs::toggl::Toggl;
use toggl_rs::types::{Guid, TimeEntry, TimeEntryInner};
use toggl_rs::user::User;
use toggl_rs::workspace::Workspace;

fn session() -> Toggl {
    Toggl {
        api_token: "secret".to_string(),
        user: User {
            fullname: "Ada".to_string(),
            workspaces: vec![Rc::new(Workspace::new(1, "one".to_string()))],
        },
        projects: Vec::new(),
        clients: Vec::new(),
    }
}

fn entry(id: i64) -> TimeEntry {
    TimeEntry {
        id,
        guid: Guid(0xa1a2a3a4b1b2c1c2d1d2d3d4d5d6d7d8),
        workspace: Rc::new(Workspace::new(1, "one".to_string())),
        client: None,
        project: Some(Rc::new(Project::new(42, "p".to_string(), false, true, None))),
        start: Timestamp::new(1_577_836_800, 0),
        stop: None,
        duration: -1_577_836_800,
        description: Some("say \"hi\"".to_string()),
        duronly: false,
        at: Timestamp::new(1_577_836_805, 500_000_000),
    }
}

fn check(r: &Request, method: Method, url: &str, body: Option<&str>) {
    assert_eq!(r.method, method);
    assert_eq!(r.url, url);
    assert_eq!(r.username, "secret");
    assert_eq!(r.password, "api_token");
    assert_eq!(r.body.as_deref(), body);
}

#[test]
fn fixed_addresses() {
    assert_eq!(me_url(), "https://www.toggl.com/api/v8/me");
    assert_eq!(start_url(), "https://www.toggl.com/api/v8/time_entries/start");
    assert_eq!(current_url(), "https://www.toggl.com/api/v8/time_entries/current");
}

#[test]
fn addresses_with_an_id() {
    assert_eq!(projects_url(7), "https://www.toggl.com/api/v8/workspaces/7/projects");
    assert_eq!(clients_url(123), "https://api.track.toggl.com/api/v8/workspaces/123/clients");
    assert_eq!(entry_url(-5), "https://www.toggl.com/api/v8/time_entries/-5");
    assert_eq!(stop_url(1_000_000), "https://www.toggl.com/api/v8/time_entries/1000000/stop");
    assert_eq!(
        entry_url(i64::MIN),
        "https://www.toggl.com/api/v8/time_entries/-9223372036854775808"
    );
}

#[test]
fn range_query_names_the_bounds_that_are_given() {
    assert!(range_query(None, None).is_empty());
    assert_eq!(
        range_query(Some("a".to_string()), None),
        vec![("start_date".to_string(), "a".to_string())]
    );
    assert_eq!(
        range_query(None, Some("b".to_string())),
        vec![("end_date".to_string(), "b".to_string())]
    );
    assert_eq!(
        range_query(Some("a".to_string()), Some("b".to_string())),
        vec![
            ("start_date".to_string(), "a".to_string()),
            ("end_date".to_string(), "b".to_string())
        ]
    );
}

#[test]
fn range_address_holds_the_bounds_as_rfc3339() {
    assert_eq!(
        time_entries_url(Some(Timestamp::new(1_577_836_800, 0)), None).unwrap(),
        "https://www.toggl.com/api/v8/time_entries?start_date=2020-01-01T00%3A00%3A00%2B00%3A00"
    );
    assert_eq!(
        time_entries_url(
            Some(Timestamp::new(1_577_836_800, 0)),
            Some(Timestamp::new(1_577_923_199, 0))
        )
        .unwrap(),
        "https://www.toggl.com/api/v8/time_entries?start_date=2020-01-01T00%3A00%3A00%2B00%3A00&end_date=2020-01-01T23%3A59%3A59%2B00%3A00"
    );
}

#[test]
fn range_address_without_bounds() {
    assert_eq!(
        time_entries_url(None, None).unwrap(),
        "https://www.toggl.com/api/v8/time_entries?"
    );
}

#[test]
fn range_address_of_an_instant_out_of_range_is_none() {
    assert_eq!(time_entries_url(Some(Timestamp::new(i64::MAX, 0)), None), None);
    assert_eq!(time_entries_url(None, Some(Timestamp::new(0, 2_000_000_000))), None);
}

#[test]
fn join_puts_commas_between() {
    assert_eq!(join(&Vec::new()), "");
    assert_eq!(join(&vec!["1".to_string()]), "1");
    assert_eq!(join(&vec!["1".to_string(), "2".to_string(), "3".to_string()]), "1,2,3");
}

#[test]
fn start_entry_frame_is_exact() {
    assert_eq!(
        frame_start_entry("\"test\"", &Vec::new(), Some(42)),
        "{\"time_entry\":{\"description\":\"test\",\"tags\":[],\"pid\":42,\"created_with\":\"toggl-rs\"}}"
    );
    assert_eq!(
        frame_start_entry("null", &vec!["\"a\"".to_string(), "\"b\"".to_string()], None),
        "{\"time_entry\":{\"description\":null,\"tags\":[\"a\",\"b\"],\"pid\":null,\"created_with\":\"toggl-rs\"}}"
    );
}

#[test]
fn start_entry_body_for_test_and_project_42() {
    assert_eq!(
        start_entry_body(&Some("test".to_string()), &[], Some(42)).unwrap(),
        "{\"time_entry\":{\"description\":\"test\",\"tags\":[],\"pid\":42,\"created_with\":\"toggl-rs\"}}"
    );
}

#[test]
fn start_entry_body_escapes_strings() {
    assert_eq!(
        start_entry_body(
            &Some("a \"b\"\n\\".to_string()),
            &["x y".to_string(), "\u{e9}".to_string()],
            None
        )
        .unwrap(),
        "{\"time_entry\":{\"description\":\"a \\\"b\\\"\\n\\\\\",\"tags\":[\"x y\",\"\u{e9}\"],\"pid\":null,\"created_with\":\"toggl-rs\"}}"
    );
    assert_eq!(
        start_entry_body(&None, &[], Some(-3)).unwrap(),
        "{\"time_entry\":{\"description\":null,\"tags\":[],\"pid\":-3,\"created_with\":\"toggl-rs\"}}"
    );
}

#[test]
fn update_entry_frame_is_exact() {
    let raw = TimeEntryInner {
        id: 1,
        guid: Guid(0),
        wid: 2,
        pid: None,
        start: Timestamp::new(0, 0),
        stop: None,
        duration: -3,
        description: None,
        duronly: true,
        at: Timestamp::new(0, 0),
    };
    let texts = EntryTexts {
        guid: "G".to_string(),
        start: "S".to_string(),
        stop: "P".to_string(),
        description: "D".to_string(),
        at: "A".to_string(),
    };
    assert_eq!(
        frame_update_entry(&raw, &texts),
        "{\"time_entry\":{\"id\":1,\"guid\":G,\"wid\":2,\"pid\":null,\"start\":S,\"stop\":P,\"duration\":-3,\"description\":D,\"duronly\":true,\"at\":A}}"
    );
}

#[test]
fn entry_texts_are_json() {
    let raw = TimeEntryInner {
        id: 1,
        guid: Guid(0xa1a2a3a4b1b2c1c2d1d2d3d4d5d6d7d8),
        wid: 2,
        pid: Some(3),
        start: Timestamp::new(1_577_836_800, 0),
        stop: Some(Timestamp::new(1_577_836_860, 250_000_000)),
        duration: 60,
        description: Some("d".to_string()),
        duronly: false,
        at: Timestamp::new(1_577_836_861, 0),
    };
    let t = entry_json_texts(&raw).unwrap();
    assert_eq!(t.guid, "\"a1a2a3a4-b1b2-c1c2-d1d2-d3d4d5d6d7d8\"");
    assert_eq!(t.start, "\"2020-01-01T00:00:00Z\"");
    assert_eq!(t.stop, "\"2020-01-01T00:01:00.250Z\"");
    assert_eq!(t.description, "\"d\"");
    assert_eq!(t.at, "\"2020-01-01T00:01:01Z\"");
    assert_eq!(
        update_entry_body(&raw).unwrap(),
        "{\"time_entry\":{\"id\":1,\"guid\":\"a1a2a3a4-b1b2-c1c2-d1d2-d3d4d5d6d7d8\",\"wid\":2,\"pid\":3,\"start\":\"2020-01-01T00:00:00Z\",\"stop\":\"2020-01-01T00:01:00.250Z\",\"duration\":60,\"description\":\"d\",\"duronly\":false,\"at\":\"2020-01-01T00:01:01Z\"}}"
    );
}

#[test]
fn update_body_of_an_instant_out_of_range_is_none() {
    let raw = TimeEntryInner {
        id: 1,
        guid: Guid(0),
        wid: 2,
        pid: None,
        start: Timestamp::new(i64::MIN, 0),
        stop: None,
        duration: 0,
        description: None,
        duronly: false,
        at: Timestamp::new(0, 0),
    };
    assert!(entry_json_texts(&raw).is_none());
    assert_eq!(update_entry_body(&raw), None);
}

#[test]
fn requests_of_the_operations() {
    let t = session();
    check(
        &t.get_time_entries().unwrap(),
        Method::Get,
        "https://www.toggl.com/api/v8/time_entries?",
        None,
    );
    check(
        &t.get_time_entries_range(Some(Timestamp::new(1_577_836_800, 0)), None).unwrap(),
        Method::Get,
        "https://www.toggl.com/api/v8/time_entries?start_date=2020-01-01T00%3A00%3A00%2B00%3A00",
        None,
    );
    check(
        &t.stop_entry(&entry(12)),
        Method::Get,
        "https://www.toggl.com/api/v8/time_entries/12/stop",
        None,
    );
    check(
        &t.get_entry_details(13),
        Method::Get,
        "https://www.toggl.com/api/v8/time_entries/13",
        None,
    );
    check(
        &t.get_running_entry(),
        Method::Get,
        "https://www.toggl.com/api/v8/time_entries/current",
        None,
    );
    check(
        &t.delete_entry(&entry(14)),
        Method::Delete,
        "https://www.toggl.com/api/v8/time_entries/14",
        None,
    );
}

#[test]
fn start_entry_posts_the_body() {
    let t = session();
    let p = Project::new(42, "p".to_string(), false, true, None);
    check(
        &t.start_entry(Some("test".to_string()), &[], Some(&p)).unwrap(),
        Method::Post,
        "https://www.toggl.com/api/v8/time_entries/start",
        Some("{\"time_entry\":{\"description\":\"test\",\"tags\":[],\"pid\":42,\"created_with\":\"toggl-rs\"}}"),
    );
    check(
        &t.start_entry(None, &["t".to_string()], None).unwrap(),
        Method::Post,
        "https://www.toggl.com/api/v8/time_entries/start",
        Some("{\"time_entry\":{\"description\":null,\"tags\":[\"t\"],\"pid\":null,\"created_with\":\"toggl-rs\"}}"),
    );
}

#[test]
fn update_entry_puts_the_whole_entry() {
    let t = session();
    check(
        &t.update_entry(entry(15)).unwrap(),
        Method::Put,
        "https://www.toggl.com/api/v8/time_entries/15",
        Some("{\"time_entry\":{\"id\":15,\"guid\":\"a1a2a3a4-b1b2-c1c2-d1d2-d3d4d5d6d7d8\",\"wid\":1,\"pid\":42,\"start\":\"2020-01-01T00:00:00Z\",\"stop\":null,\"duration\":-1577836800,\"description\":\"say \\\"hi\\\"\",\"duronly\":false,\"at\":\"2020-01-01T00:00:05.500Z\"}}"),
    );
}

#[test]
fn new_request_carries_the_credential() {
    let r = Request::new("tok", Method::Put, "u".to_string(), Some("b".to_string()));
    assert_eq!(r.method, Method::Put);
    assert_eq!(r.url, "u");
    assert_eq!(r.username, "tok");
    assert_eq!(r.password, "api_token");
    assert_eq!(r.body.as_deref(), Some("b"));
}
