//! The MCP surface.

use noetl_doctor::commands::{
    conclude, detect, dispatch, reachability, trigger_reaper, Command, Config, Job, McpAction, Plan,
    PlaybookSource,
};
use noetl_doctor::embed::Bundled;
use noetl_doctor::json::{Document, Json};
use noetl_doctor::mcp::{bind_address, error_body, healthz, list_tools, result_body, Tool};
use noetl_doctor::report::{Outcome, Severity};
use serde_json::Value;

fn value(json: &Json) -> Value {
    match json {
        Json::Text(text) => Value::String(text.clone()),
        Json::Bool(flag) => Value::Bool(*flag),
        Json::Number(number) => Value::from(*number),
        Json::Array(items) => Value::Array(items.iter().map(value).collect()),
        Json::Object(members) => {
            let mut map = serde_json::Map::new();
            for (name, member) in members {
                map.insert(name.clone(), value(member));
            }
            Value::Object(map)
        }
        Json::Document(document) => serde_json::from_slice(document.text()).unwrap(),
    }
}

fn config(pg_dsn: Option<&str>) -> Config {
    Config {
        noetl_url: "http://x".to_string(),
        pg_dsn: pg_dsn.map(|dsn| dsn.to_string()),
        stale_seconds: "600".to_string(),
        pending_retry_seconds: "45".to_string(),
        max_rows: 20,
    }
}

fn parsed(text: &str) -> Value {
    serde_json::from_str(text).unwrap()
}

#[test]
fn health_probe_answers_ok() {
    assert_eq!(value(&healthz()), parsed("{\"status\":\"ok\"}"));
}

#[test]
fn manifest_lists_the_tools() {
    let schema = "{\"type\":\"object\",\"properties\":{},\"additionalProperties\":false}";
    let expected = format!(
        "{{\"tools\":[\
         {{\"name\":\"detect\",\"description\":\"Run the stuck-execution + stale-command detection playbook.\",\"input_schema\":{schema}}},\
         {{\"name\":\"reachability\",\"description\":\"Probe NoETL server, Postgres and runtime pool reachability.\",\"input_schema\":{schema}}},\
         {{\"name\":\"repair_trigger_reaper\",\"description\":\"Ask the NoETL server to perform a single command-reaper sweep (404-tolerant).\",\"input_schema\":{schema}}}]}}"
    );
    assert_eq!(value(&list_tools()), parsed(&expected));
}

#[test]
fn the_manifest_and_the_tools_agree() {
    let tools = Tool::all();
    assert_eq!(tools, [Tool::Detect, Tool::Reachability, Tool::RepairTriggerReaper]);
    let manifest = value(&list_tools());
    let listed: Vec<&str> =
        manifest["tools"].as_array().unwrap().iter().map(|t| t["name"].as_str().unwrap()).collect();
    let names: Vec<&str> = tools.iter().map(|tool| tool.name()).collect();
    assert_eq!(listed, names);
}

#[test]
fn tools_are_invoked_at_their_paths() {
    assert_eq!(Tool::Detect.invoke_path(), "/tools/detect/invoke");
    assert_eq!(Tool::Reachability.invoke_path(), "/tools/reachability/invoke");
    assert_eq!(Tool::RepairTriggerReaper.invoke_path(), "/tools/repair_trigger_reaper/invoke");
    assert_eq!(Tool::Detect.name(), "detect");
    assert!(Tool::RepairTriggerReaper.description().contains("404-tolerant"));
}

#[test]
fn tools_take_their_settings_from_the_server() {
    let with_dsn = config(Some("postgresql://db"));
    let without_dsn = config(None);
    let job = Tool::Detect.invoke(&with_dsn);
    assert_eq!(job.job, Job::Detect);
    assert!(matches!(job.source, PlaybookSource::Bundled(Bundled::DetectStuckExecutions)));
    assert_eq!(
        job.set,
        [
            "action=detect",
            "noetl_server_url=http://x",
            "stale_seconds=600",
            "pending_retry_seconds=45",
            "max_rows=20",
            "pg_dsn=postgresql://db",
        ]
    );
    let job = Tool::Detect.invoke(&without_dsn);
    assert_eq!(job.set.len(), 5);
    let job = Tool::Reachability.invoke(&with_dsn);
    assert_eq!(
        job.set,
        ["action=probe", "noetl_server_url=http://x", "pg_dsn=postgresql://db"]
    );
    let job = Tool::Reachability.invoke(&without_dsn);
    assert_eq!(job.job, Job::Reachability);
    assert!(matches!(job.source, PlaybookSource::Bundled(Bundled::ReachabilitySmoke)));
    assert_eq!(job.set, ["action=probe", "noetl_server_url=http://x"]);
    let job = Tool::RepairTriggerReaper.invoke(&with_dsn);
    assert_eq!(job.job, Job::TriggerReaper);
    assert!(matches!(job.source, PlaybookSource::Bundled(Bundled::TriggerCommandReaper)));
    assert_eq!(job.set, ["action=trigger", "noetl_server_url=http://x"]);
}

#[test]
fn a_server_passes_on_what_it_was_started_with() {
    let serve = McpAction::Serve { host: "127.0.0.1".to_string(), port: 8765 };
    match dispatch(Command::Mcp(serve), config(None)) {
        Plan::Serve { config, .. } => {
            let job = Tool::Detect.invoke(&config);
            assert!(job.set.contains(&"stale_seconds=600".to_string()));
            assert!(job.set.contains(&"pending_retry_seconds=45".to_string()));
            assert!(job.set.contains(&"max_rows=20".to_string()));
        }
        other => panic!("not a server: {other:?}"),
    }
}

#[test]
fn tools_set_what_the_subcommands_set() {
    let config = config(Some("d"));
    assert_eq!(Tool::Detect.invoke(&config).set, detect(&config).set);
    assert_eq!(Tool::Reachability.invoke(&config).set, reachability(&config).set);
    assert_eq!(Tool::RepairTriggerReaper.invoke(&config).set, trigger_reaper(&config).set);
}

#[test]
fn results_hold_the_outcome() {
    let data = Json::Document(Document::parse(b"{\"status\":\"ok\",\"n\":1.5}".to_vec()).unwrap());
    let outcome = Outcome::stamped(
        "detect".to_string(),
        Severity::Clear,
        "2026-05-15T08:00:00+00:00".to_string(),
        data,
    );
    assert_eq!(
        value(&result_body(outcome)),
        parsed(
            "{\"result\":{\"action\":\"detect\",\"severity\":\"ok\",\"exit_code\":0,\
             \"generated_at\":\"2026-05-15T08:00:00+00:00\",\
             \"data\":{\"status\":\"ok\",\"n\":1.5}}}"
        )
    );
}

#[test]
fn invocation_and_subcommand_come_to_the_same_outcome() {
    let report = || Json::Document(Document::parse(b"{\"status\":\"stuck\"}".to_vec()).unwrap());
    let invoked = conclude(Tool::Detect.invoke(&config(None)).job, report());
    let printed = conclude(Job::Detect, report());
    assert_eq!(invoked.action, printed.action);
    assert_eq!(invoked.severity, printed.severity);
    let body = value(&result_body(invoked));
    assert_eq!(body["result"]["data"], value(&printed.into_json())["data"]);
}

#[test]
fn failures_hold_the_message() {
    assert_eq!(value(&error_body("boom".to_string())), parsed("{\"error\":\"boom\"}"));
}

#[test]
fn addresses_are_host_and_port() {
    assert_eq!(bind_address("0.0.0.0", 8765), "0.0.0.0:8765");
    assert_eq!(bind_address("::1", 0), "::1:0");
    assert_eq!(bind_address("h", 65535), "h:65535");
}
