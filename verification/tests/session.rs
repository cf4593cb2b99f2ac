use msitrace::message::UILevel;
use msitrace::session::{
    command_line, has_nul, map_status, validate_property, Action, Event, Session, SessionState,
};
use msitrace::Error;

fn strings(parts: &[&str]) -> Vec<String> {
    parts.iter().map(|s| String::from(*s)).collect()
}

#[test]
fn property_validator() {
    assert!(!validate_property("A"));
    assert!(!validate_property("A=1=2"));
    assert!(!validate_property(""));
    assert!(validate_property("A="));
    assert!(validate_property("A=1"));
}

#[test]
fn command_line_joins_with_single_spaces() {
    assert_eq!(command_line(&strings(&["A=1", "B=2"])), "A=1 B=2");
}

#[test]
fn command_line_edge_cases() {
    assert_eq!(command_line(&strings(&[])), "");
    assert_eq!(command_line(&strings(&["A=1"])), "A=1");
    // Order is preserved, not sorted.
    assert_eq!(command_line(&strings(&["B=2", "A=1", "C=3"])), "B=2 A=1 C=3");
}

#[test]
fn nul_detection() {
    assert!(!has_nul("plain"));
    assert!(!has_nul(""));
    assert!(has_nul("a\0b"));
    assert!(has_nul("\0"));
}

#[test]
fn status_mapping() {
    assert_eq!(map_status(0), Ok(()));
    assert_eq!(map_status(1603), Err(Error::EngineCode(1603)));
}

#[test]
fn nonexistent_path_fails_before_any_native_call() {
    let mut s = Session::new(
        String::from("missing.msi"),
        None,
        UILevel::Default,
        strings(&["A=1"]),
    );
    assert_eq!(s.state, SessionState::AwaitingPathCheck);
    // The very first action already finishes the session: no SetUi,
    // EnableLog, Register or Install was ever produced.
    let a = s.step(Event::PathExists(false));
    assert_eq!(a, Action::Finish(Err(Error::PathNotFound)));
    assert_eq!(s.state, SessionState::Done);
}

#[test]
fn full_session_without_log() {
    let mut s = Session::new(
        String::from("pkg.msi"),
        None,
        UILevel::Full,
        strings(&["A=1", "B=2"]),
    );
    assert_eq!(s.step(Event::PathExists(true)), Action::SetUi(5));
    assert_eq!(s.step(Event::UiSet), Action::Register(0x1F00_0000));
    assert_eq!(
        s.step(Event::StatusCode(0)),
        Action::Install(String::from("pkg.msi"), String::from("A=1 B=2"))
    );
    assert_eq!(s.step(Event::StatusCode(0)), Action::Finish(Ok(())));
    assert_eq!(s.state, SessionState::Done);
}

#[test]
fn full_session_with_log() {
    let mut s = Session::new(
        String::from("pkg.msi"),
        Some(String::from("out.log")),
        UILevel::Silent,
        strings(&[]),
    );
    assert_eq!(s.step(Event::PathExists(true)), Action::SetUi(2));
    assert_eq!(s.step(Event::UiSet), Action::EnableLog(String::from("out.log")));
    assert_eq!(s.step(Event::StatusCode(0)), Action::Register(0x1F00_0000));
    assert_eq!(
        s.step(Event::StatusCode(0)),
        Action::Install(String::from("pkg.msi"), String::from(""))
    );
    assert_eq!(s.step(Event::StatusCode(1618)), Action::Finish(Err(Error::EngineCode(1618))));
}

#[test]
fn log_failure_stops_the_session() {
    let mut s = Session::new(
        String::from("pkg.msi"),
        Some(String::from("out.log")),
        UILevel::Default,
        strings(&[]),
    );
    s.step(Event::PathExists(true));
    s.step(Event::UiSet);
    assert_eq!(s.step(Event::StatusCode(5)), Action::Finish(Err(Error::EngineCode(5))));
    assert_eq!(s.state, SessionState::Done);
}

#[test]
fn registration_failure_stops_the_session() {
    let mut s = Session::new(String::from("pkg.msi"), None, UILevel::Default, strings(&[]));
    s.step(Event::PathExists(true));
    s.step(Event::UiSet);
    assert_eq!(s.step(Event::StatusCode(87)), Action::Finish(Err(Error::EngineCode(87))));
}

#[test]
fn nul_in_log_path_is_unrepresentable() {
    let mut s = Session::new(
        String::from("pkg.msi"),
        Some(String::from("bad\0log")),
        UILevel::Default,
        strings(&[]),
    );
    s.step(Event::PathExists(true));
    assert_eq!(
        s.step(Event::UiSet),
        Action::Finish(Err(Error::UnrepresentableString))
    );
}

#[test]
fn nul_in_package_path_is_unrepresentable() {
    let mut s = Session::new(String::from("bad\0pkg"), None, UILevel::Default, strings(&[]));
    s.step(Event::PathExists(true));
    s.step(Event::UiSet);
    assert_eq!(
        s.step(Event::StatusCode(0)),
        Action::Finish(Err(Error::UnrepresentableString))
    );
}

#[test]
fn nul_in_property_is_unrepresentable() {
    let mut s = Session::new(
        String::from("pkg.msi"),
        None,
        UILevel::Default,
        strings(&["A=\0"]),
    );
    s.step(Event::PathExists(true));
    s.step(Event::UiSet);
    assert_eq!(
        s.step(Event::StatusCode(0)),
        Action::Finish(Err(Error::UnrepresentableString))
    );
}
