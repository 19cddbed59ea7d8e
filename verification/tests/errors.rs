use toggl_rs::auth::LoginOutcome;
use toggl_rs::error::TogglError;
use toggl_rs::toggl::Toggl;

fn transport_error() -> reqwest::Error {
    reqwest::blocking::Client::new().get("this is no address").send().unwrap_err()
}

#[test]
fn transport_errors_are_kept_as_they_are() {
    let e = transport_error();
    let text = e.to_string();
    match TogglError::from(e) {
        TogglError::ReqwestError(inner) => assert_eq!(inner.to_string(), text),
        _ => panic!("a transport error was expected"),
    }
}

#[test]
fn a_credential_that_is_no_header_value_is_an_auth_error() {
    let e = reqwest::header::HeaderValue::from_str("line\nbreak").unwrap_err();
    match TogglError::from(e) {
        TogglError::AuthError(m) => assert_eq!(m, "Could not parse Authentication api_token"),
        _ => panic!("an authentication error was expected"),
    }
}

#[test]
fn failed_sign_in_gives_the_transport_error() {
    let e = transport_error();
    let text = e.to_string();
    match Toggl::authenticate_api_token("tok", LoginOutcome::Failed(e)) {
        Err(TogglError::ReqwestError(inner)) => assert_eq!(inner.to_string(), text),
        _ => panic!("a transport error was expected"),
    }
    assert!(matches!(
        Toggl::init("tok", LoginOutcome::Failed(transport_error())),
        Err(TogglError::ReqwestError(_))
    ));
}

#[test]
fn errors_can_be_shown_for_debugging() {
    assert_eq!(format!("{:?}", TogglError::NotImplemented), "NotImplemented");
    assert_eq!(format!("{:?}", TogglError::AuthError("x".to_string())), "AuthError(\"x\")");
}
