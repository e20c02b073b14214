//! Finding the report in an output.

use noetl_doctor::extract::{extract_last_json_object, last_balanced, matching_open};
use noetl_doctor::json::Document;
use serde_json::Value;

fn value(document: &Document) -> Value {
    serde_json::from_slice(document.text()).unwrap()
}

#[test]
fn extracts_trailing_json_object() {
    let stdout = "some noisy log\nINFO 2026-05-14 hello\n{\"status\":\"stuck\",\"count\":3}\n";
    let found = extract_last_json_object(stdout).expect("json should be found");
    let v = value(&found);
    assert_eq!(v["status"], "stuck");
    assert_eq!(v["count"], 3);
    assert_eq!(found.status().as_deref(), Some("stuck"));
    assert_eq!(found.ok(), None);
}

#[test]
fn picks_last_object_when_multiple_present() {
    let stdout = "{\"prev\":true}\n{\"final\":true,\"n\":7}\n";
    let v = value(&extract_last_json_object(stdout).unwrap());
    assert_eq!(v["final"], true);
    assert_eq!(v["n"], 7);
}

#[test]
fn returns_none_when_no_json() {
    assert!(extract_last_json_object("no objects here\n").is_none());
}

#[test]
fn extracts_nested_object() {
    let stdout = "log\n{\"a\":{\"b\":1,\"c\":[1,2,3]}}";
    let v = value(&extract_last_json_object(stdout).unwrap());
    assert_eq!(v["a"]["b"], 1);
    assert_eq!(v["a"]["c"][2], 3);
}

#[test]
fn extracts_arrays_too() {
    let found = extract_last_json_object("{\"status\":\"ok\"} then [1, 2]").unwrap();
    assert_eq!(found.text().as_slice(), b"[1, 2]");
    assert_eq!(found.status(), None);
}

#[test]
fn passes_over_balanced_text_that_is_no_json() {
    let found = extract_last_json_object("{\"ok\":true}\n[WARN] late {oops}\n").unwrap();
    assert_eq!(found.text().as_slice(), b"{\"ok\":true}");
    assert_eq!(found.ok(), Some(true));
}

#[test]
fn passes_over_a_closing_bracket_without_a_match() {
    let found = extract_last_json_object("{\"n\":1} ]").unwrap();
    assert_eq!(found.text().as_slice(), b"{\"n\":1}");
    assert!(extract_last_json_object("}]").is_none());
    assert!(extract_last_json_object("").is_none());
}

#[test]
fn report_survives_noise_around_it() {
    for before in ["", "[INFO] {", "}}}]] \u{fc}\u{1f600} "] {
        for after in ["", "\n", " done {[ \u{fc}"] {
            let output = format!("{before}{{\"status\":\"ok\"}}{after}");
            let found = extract_last_json_object(&output).unwrap();
            assert_eq!(found.text().as_slice(), b"{\"status\":\"ok\"}");
        }
    }
}

#[test]
fn members_of_another_type_do_not_count() {
    let found = extract_last_json_object("{\"status\":1,\"ok\":\"yes\"}").unwrap();
    assert_eq!(found.status(), None);
    assert_eq!(found.ok(), None);
}

#[test]
fn matching_bracket_is_found() {
    let bytes = b"{[{}]}";
    assert_eq!(matching_open(bytes, 5), Some(0));
    assert_eq!(matching_open(bytes, 4), Some(1));
    assert_eq!(matching_open(bytes, 3), Some(2));
    assert_eq!(matching_open(b"}", 0), None);
    assert_eq!(last_balanced(bytes, 6), Some((0, 5)));
    assert_eq!(last_balanced(bytes, 5), Some((1, 4)));
    assert_eq!(last_balanced(bytes, 3), None);
}

#[test]
fn a_document_is_valid_json() {
    assert!(Document::parse(b"{\"a\":1}".to_vec()).is_some());
    assert!(Document::parse(b" 17 ".to_vec()).is_some());
    assert!(Document::parse(b"{\"a\":1} x".to_vec()).is_none());
    assert!(Document::parse(b"{'a':1}".to_vec()).is_none());
    assert!(Document::parse(Vec::new()).is_none());
}

#[test]
fn a_report_is_its_own_report() {
    let found = extract_last_json_object("x [ {\"a\":[1]} y").unwrap();
    let text = String::from_utf8(found.text().clone()).unwrap();
    assert_eq!(text, "{\"a\":[1]}");
    let again = extract_last_json_object(&text).unwrap();
    assert_eq!(again.text(), found.text());
}

#[test]
fn flat_reports_are_found_in_noise() {
    for report in ["{}", "[]", "{\"status\":\"ok\"}", "{\"a\":[1,[2]]}", "[{\"a\":1},{\"b\":{}}]"] {
        for before in ["", "log\n", "{ [ ", "} ] {\"old\":1} "] {
            for after in ["", "\n", " { [ done\n"] {
                let output = format!("{before}{report}{after}");
                let found = extract_last_json_object(&output).unwrap();
                assert_eq!(found.text().as_slice(), report.as_bytes(), "{output}");
            }
        }
    }
}

#[test]
fn nested_reports_are_found_in_noise() {
    let report = "{\"a\":{\"b\":[1,{\"c\":[[],{}]}]},\"d\":\"say \\\"x\\\" \\\\\",\"e\":{}}";
    assert!(Document::parse(report.as_bytes().to_vec()).is_some());
    for before in ["", "WARN } ]] {{ \"", "{\"status\":\"ok\"}\n"] {
        for after in ["", "\nbye {[ \""] {
            let output = format!("{before}{report}{after}");
            let found = extract_last_json_object(&output).unwrap();
            assert_eq!(found.text().as_slice(), report.as_bytes(), "{output}");
        }
    }
}
