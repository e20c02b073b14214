//! Outcomes and exit codes.

use noetl_doctor::json::Json;
use noetl_doctor::report::{
    exit_code_for_outcome, exit_code_for_run, severity_for_status, Outcome, Severity,
};

fn action() -> String {
    "probe".to_string()
}

fn data() -> Json {
    Json::text("payload")
}

#[test]
fn constructors_set_the_severity() {
    assert_eq!(Outcome::ok(action(), data()).severity, Severity::Clear);
    assert_eq!(Outcome::anomaly(action(), data()).severity, Severity::Anomaly);
    assert_eq!(Outcome::repaired(action(), data()).severity, Severity::Repaired);
    assert_eq!(Outcome::error(action(), data()).severity, Severity::Error);
    assert_eq!(Outcome::for_bool(action(), true, data()).severity, Severity::Clear);
    assert_eq!(Outcome::for_bool(action(), false, data()).severity, Severity::Anomaly);
    let outcome = Outcome::ok(action(), data());
    assert_eq!(outcome.action, "probe");
    assert!(matches!(outcome.data, Json::Text(ref text) if text == "payload"));
}

#[test]
fn status_decides_the_severity() {
    assert_eq!(severity_for_status("ok"), Severity::Clear);
    assert_eq!(severity_for_status("stuck"), Severity::Anomaly);
    assert_eq!(severity_for_status("noop"), Severity::Repaired);
    assert_eq!(severity_for_status("error"), Severity::Error);
    for odd in ["", "OK", "unknown", "ok ", "healthy"] {
        assert_eq!(severity_for_status(odd), Severity::Anomaly);
        assert_eq!(Outcome::from_status(action(), odd, data()).severity, Severity::Anomaly);
    }
    assert_eq!(Outcome::from_status(action(), "noop", data()).severity, Severity::Repaired);
}

#[test]
fn exit_codes_follow_the_severity() {
    assert_eq!(exit_code_for_outcome(&Outcome::ok(action(), data())), 0);
    assert_eq!(exit_code_for_outcome(&Outcome::repaired(action(), data())), 0);
    assert_eq!(exit_code_for_outcome(&Outcome::anomaly(action(), data())), 2);
    assert_eq!(exit_code_for_outcome(&Outcome::error(action(), data())), 3);
    assert_eq!(exit_code_for_run(Some(&Outcome::anomaly(action(), data()))), 2);
    assert_eq!(exit_code_for_run(None), 3);
}

#[test]
fn timestamps_are_utc_in_rfc_3339() {
    let outcome = Outcome::ok(action(), data());
    let stamp = outcome.generated_at.as_str();
    assert!(stamp.len() >= 25 && stamp.ends_with("+00:00"), "{stamp}");
    assert_eq!(&stamp[4..5], "-");
    assert_eq!(&stamp[10..11], "T");
    assert_eq!(&stamp[13..14], ":");
    assert!(stamp[..4].parse::<u32>().unwrap() >= 2024);
}

#[test]
fn stamped_keeps_what_it_is_given() {
    let at = "2026-05-15T08:00:00+00:00".to_string();
    let outcome = Outcome::stamped(action(), Severity::Repaired, at, data());
    assert_eq!(outcome.generated_at, "2026-05-15T08:00:00+00:00");
    match outcome.into_json() {
        Json::Object(members) => {
            let names: Vec<&str> = members.iter().map(|m| m.0.as_str()).collect();
            assert_eq!(names, ["action", "severity", "exit_code", "generated_at", "data"]);
            assert!(matches!(&members[0].1, Json::Text(t) if t == "probe"));
            assert!(matches!(&members[1].1, Json::Text(t) if t == "repaired"));
            assert!(matches!(&members[2].1, Json::Number(0)));
            assert!(matches!(&members[3].1, Json::Text(t) if t == "2026-05-15T08:00:00+00:00"));
            assert!(matches!(&members[4].1, Json::Text(t) if t == "payload"));
        }
        other => panic!("not an object: {other:?}"),
    }
}

#[test]
fn reports_hold_the_exit_code() {
    for (status, code) in [("ok", 0), ("noop", 0), ("stuck", 2), ("error", 3)] {
        let data = Json::object(vec![("status".to_string(), Json::text(status))]);
        let outcome = Outcome::from_status("detect".to_string(), status, data);
        assert_eq!(i64::from(exit_code_for_outcome(&outcome)), code);
        match outcome.into_json() {
            Json::Object(members) => {
                let of = |name: &str| &members.iter().find(|m| m.0 == name).unwrap().1;
                assert!(matches!(of("action"), Json::Text(t) if t == "detect"));
                assert!(matches!(of("exit_code"), Json::Number(n) if *n == code));
                if status == "stuck" {
                    assert!(matches!(of("severity"), Json::Text(t) if t == "anomaly"));
                }
            }
            other => panic!("not an object: {other:?}"),
        }
    }
}

#[test]
fn severities_have_their_names() {
    assert_eq!(Severity::Clear.as_str(), "ok");
    assert_eq!(Severity::Anomaly.as_str(), "anomaly");
    assert_eq!(Severity::Repaired.as_str(), "repaired");
    assert_eq!(Severity::Error.as_str(), "error");
}

#[test]
fn members_are_read_from_built_objects() {
    let object = Json::object(vec![
        ("ok".to_string(), Json::Bool(true)),
        ("status".to_string(), Json::text("stuck")),
    ]);
    assert_eq!(object.status().as_deref(), Some("stuck"));
    assert_eq!(object.ok(), Some(true));
    assert_eq!(Json::object(Vec::new()).status(), None);
    assert_eq!(Json::array(vec![Json::text("status")]).status(), None);
    assert_eq!(Json::Bool(true).ok(), None);
}
