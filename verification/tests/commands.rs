//! The subcommands.

use std::path::PathBuf;

use noetl_doctor::commands::{
    conclude, default_log_level, detect, dispatch, extract_status, list_playbooks, provision,
    reachability, run_playbook, served, start, trigger_reaper, Command, Config, Job, McpAction, Plan,
    PlaybookSource, ProvisionAction, ProvisionOptions, RepairAction, Step,
};
use noetl_doctor::embed::Bundled;
use noetl_doctor::json::{Document, Json};
use noetl_doctor::report::{exit_code_for_outcome, Outcome, Severity};
use noetl_doctor::runner::{interpret_text, resolve_noetl_binary, DoctorError};

fn config(pg_dsn: Option<&str>) -> Config {
    Config {
        noetl_url: "http://x".to_string(),
        pg_dsn: pg_dsn.map(|dsn| dsn.to_string()),
        stale_seconds: "300".to_string(),
        pending_retry_seconds: "60".to_string(),
        max_rows: 200,
    }
}

fn document(text: &str) -> Json {
    Json::Document(Document::parse(text.as_bytes().to_vec()).unwrap())
}

fn names(outcome: &Outcome) -> Vec<(String, String)> {
    match &outcome.data {
        Json::Object(members) => members
            .iter()
            .map(|(name, value)| match value {
                Json::Text(text) => (name.clone(), text.clone()),
                other => panic!("not a text: {other:?}"),
            })
            .collect(),
        other => panic!("not an object: {other:?}"),
    }
}

#[test]
fn playbooks_subcommand_lists_bundled_names_without_requiring_noetl_cli() {
    match dispatch(Command::Playbooks, config(None)) {
        Plan::Finished(outcome) => {
            let listed = names(&outcome);
            for name in [
                "doctor/detect_stuck_executions",
                "doctor/reachability_smoke",
                "doctor/trigger_command_reaper",
            ] {
                assert!(listed.iter().any(|entry| entry.1 == name));
            }
            assert_eq!(exit_code_for_outcome(&outcome), 0);
        }
        other => panic!("not finished: {other:?}"),
    }
}

#[test]
fn listing_names_every_playbook() {
    let outcome = list_playbooks();
    assert_eq!(outcome.action, "playbooks");
    let listed = names(&outcome);
    assert_eq!(listed.len(), 5);
    for (file, name) in listed {
        assert_eq!(name, format!("doctor/{file}"));
    }
}

#[test]
fn detect_forwards_the_configuration() {
    let job = detect(&config(Some("postgresql://db")));
    assert_eq!(job.job, Job::Detect);
    assert!(matches!(job.source, PlaybookSource::Bundled(Bundled::DetectStuckExecutions)));
    assert_eq!(
        job.set,
        [
            "action=detect",
            "noetl_server_url=http://x",
            "stale_seconds=300",
            "pending_retry_seconds=60",
            "max_rows=200",
            "pg_dsn=postgresql://db",
        ]
    );
    assert_eq!(detect(&config(None)).set.len(), 5);
}

#[test]
fn numbers_are_written_in_decimal() {
    for rows in [0u32, 9, 10, 4096, u32::MAX] {
        let job = detect(&Config { max_rows: rows, ..config(None) });
        assert_eq!(job.set[4], format!("max_rows={rows}"));
    }
}

#[test]
fn reachability_and_reaper_forward_the_configuration() {
    let job = reachability(&config(Some("d")));
    assert_eq!(job.job, Job::Reachability);
    assert_eq!(job.set, ["action=probe", "noetl_server_url=http://x", "pg_dsn=d"]);
    let job = trigger_reaper(&config(Some("d")));
    assert_eq!(job.job, Job::TriggerReaper);
    assert_eq!(job.set, ["action=trigger", "noetl_server_url=http://x"]);
}

#[test]
fn any_playbook_runs_with_the_pairs_of_the_caller() {
    let job = run_playbook(PathBuf::from("p.yaml"), vec!["k=v".to_string()]);
    assert_eq!(job.job, Job::RunPlaybook);
    let options = job.into_options(PathBuf::from("p.yaml"));
    assert_eq!(options.set, ["k=v"]);
    assert_eq!(options.runtime, "local");
    assert_eq!(options.playbook, PathBuf::from("p.yaml"));
}

#[test]
fn caller_pairs_come_after_the_defaults() {
    let job = provision(ProvisionOptions {
        action: ProvisionAction::Deploy,
        image: Some("ghcr.io/noetl/doctor:0.1.0".to_string()),
        namespace: "noetl-doctor".to_string(),
        expected_kube_context: "kind-noetl".to_string(),
        set: vec!["namespace=mine".to_string()],
    });
    assert_eq!(job.job, Job::Provision(ProvisionAction::Deploy));
    assert_eq!(
        job.set,
        [
            "action=deploy",
            "namespace=noetl-doctor",
            "expected_kube_context=kind-noetl",
            "image=ghcr.io/noetl/doctor:0.1.0",
            "namespace=mine",
        ]
    );
    let job = provision(ProvisionOptions {
        action: ProvisionAction::Help,
        image: None,
        namespace: "n".to_string(),
        expected_kube_context: "c".to_string(),
        set: Vec::new(),
    });
    assert_eq!(job.set, ["action=help", "namespace=n", "expected_kube_context=c"]);
}

#[test]
fn provision_actions_have_their_verbs() {
    assert_eq!(ProvisionAction::Deploy.as_str(), "deploy");
    assert_eq!(ProvisionAction::Redeploy.as_str(), "redeploy");
    assert_eq!(ProvisionAction::Status.as_str(), "status");
    assert_eq!(ProvisionAction::Destroy.as_str(), "destroy");
    assert_eq!(ProvisionAction::Logs.as_str(), "logs");
    assert_eq!(ProvisionAction::Help.as_str(), "help");
}

#[test]
fn actions_have_different_verbs() {
    let actions = [
        ProvisionAction::Deploy,
        ProvisionAction::Redeploy,
        ProvisionAction::Status,
        ProvisionAction::Destroy,
        ProvisionAction::Logs,
        ProvisionAction::Help,
    ];
    for (i, left) in actions.iter().enumerate() {
        for (j, right) in actions.iter().enumerate() {
            assert_eq!(left.as_str() == right.as_str(), i == j);
        }
    }
}

#[test]
fn dispatch_plans_each_subcommand() {
    let job_of = |command: Command| match dispatch(command, config(None)) {
        Plan::Run(job) => job.job,
        other => panic!("not a run: {other:?}"),
    };
    assert_eq!(job_of(Command::Detect), Job::Detect);
    assert_eq!(job_of(Command::Reachability), Job::Reachability);
    assert_eq!(job_of(Command::Repair(RepairAction::TriggerReaper)), Job::TriggerReaper);
    assert_eq!(
        job_of(Command::Repair(RepairAction::RunPlaybook {
            playbook: PathBuf::from("p.yaml"),
            set: Vec::new(),
        })),
        Job::RunPlaybook
    );
    assert_eq!(
        job_of(Command::Provision(ProvisionOptions {
            action: ProvisionAction::Logs,
            image: None,
            namespace: "n".to_string(),
            expected_kube_context: "c".to_string(),
            set: Vec::new(),
        })),
        Job::Provision(ProvisionAction::Logs)
    );
    let serve = McpAction::Serve { host: "0.0.0.0".to_string(), port: 8765 };
    match dispatch(Command::Mcp(serve), config(Some("d"))) {
        Plan::Serve { host, port, config } => {
            assert_eq!((host.as_str(), port), ("0.0.0.0", 8765));
            assert_eq!(config.noetl_url, "http://x");
            assert_eq!(config.pg_dsn.as_deref(), Some("d"));
            assert_eq!(config.stale_seconds, "300");
            assert_eq!(config.pending_retry_seconds, "60");
            assert_eq!(config.max_rows, 200);
        }
        other => panic!("not a server: {other:?}"),
    }
}

fn no_binary() -> Result<PathBuf, DoctorError> {
    resolve_noetl_binary(None, Err("cannot find binary path".to_string()))
}

#[test]
fn without_a_binary_nothing_is_run_or_served() {
    let serve = McpAction::Serve { host: "127.0.0.1".to_string(), port: 8765 };
    for command in [
        Command::Detect,
        Command::Reachability,
        Command::Repair(RepairAction::TriggerReaper),
        Command::Repair(RepairAction::RunPlaybook {
            playbook: PathBuf::from("p.yaml"),
            set: Vec::new(),
        }),
        Command::Mcp(serve),
    ] {
        let text = start(dispatch(command, config(None)), no_binary()).unwrap_err();
        assert!(text.starts_with("locating noetl CLI binary: noetl CLI not found"), "{text}");
        assert!(text.ends_with(": cannot find binary path"), "{text}");
    }
    match start(dispatch(Command::Playbooks, config(None)), no_binary()) {
        Ok(Step::Finished(outcome)) => assert_eq!(outcome.action, "playbooks"),
        other => panic!("not finished: {other:?}"),
    }
}

#[test]
fn with_a_binary_the_plan_goes_ahead() {
    let found = || Ok(PathBuf::from("/usr/bin/noetl"));
    match start(dispatch(Command::Detect, config(None)), found()) {
        Ok(Step::Run { runner, job }) => {
            assert_eq!(runner.binary(), &PathBuf::from("/usr/bin/noetl"));
            assert_eq!(job.job, Job::Detect);
        }
        other => panic!("not a run: {other:?}"),
    }
    let serve = McpAction::Serve { host: "h".to_string(), port: 1 };
    match start(dispatch(Command::Mcp(serve), config(Some("d"))), found()) {
        Ok(Step::Serve { runner, host, port, config }) => {
            assert_eq!(runner.binary(), &PathBuf::from("/usr/bin/noetl"));
            assert_eq!((host.as_str(), port), ("h", 1));
            assert_eq!(config.pg_dsn.as_deref(), Some("d"));
        }
        other => panic!("not a server: {other:?}"),
    }
}

#[test]
fn the_reported_status_decides() {
    let outcome = conclude(Job::Detect, document("{\"status\":\"stuck\",\"count\":3}"));
    assert_eq!((outcome.action.as_str(), outcome.severity), ("detect", Severity::Anomaly));
    let outcome = conclude(Job::Detect, document("{\"status\":\"ok\"}"));
    assert_eq!(outcome.severity, Severity::Clear);
    let outcome = conclude(Job::TriggerReaper, document("{\"status\":\"noop\"}"));
    assert_eq!(outcome.action, "repair.trigger_reaper");
    assert_eq!(outcome.severity, Severity::Repaired);
    let outcome = conclude(Job::TriggerReaper, document("{\"status\":\"error\"}"));
    assert_eq!(exit_code_for_outcome(&outcome), 3);
    assert_eq!(extract_status(&document("{\"status\":7}")), "unknown");
    assert_eq!(extract_status(&document("[]")), "unknown");
}

#[test]
fn the_reported_flag_decides() {
    assert_eq!(conclude(Job::Reachability, document("{\"ok\":true}")).severity, Severity::Clear);
    assert_eq!(conclude(Job::Reachability, document("{\"ok\":false}")).severity, Severity::Anomaly);
    let outcome = conclude(Job::Reachability, document("{\"ok\":\"true\"}"));
    assert_eq!((outcome.action.as_str(), outcome.severity), ("reachability", Severity::Anomaly));
}

#[test]
fn other_jobs_are_all_clear() {
    let outcome = conclude(Job::RunPlaybook, document("{\"status\":\"error\"}"));
    assert_eq!((outcome.action.as_str(), outcome.severity), ("repair.run_playbook", Severity::Clear));
    let outcome = conclude(Job::Provision(ProvisionAction::Status), Json::text("up"));
    assert_eq!((outcome.action.as_str(), outcome.severity), ("provision.status", Severity::Clear));
    assert!(matches!(outcome.data, Json::Text(ref text) if text == "up"));
}

#[test]
fn a_run_without_a_report_is_an_anomaly() {
    for job in [Job::Detect, Job::Reachability, Job::TriggerReaper] {
        let value = interpret_text(true, Some(0), "all quiet", "").unwrap();
        assert_eq!(exit_code_for_outcome(&conclude(job, value)), 2);
    }
}

#[test]
fn a_clean_shutdown_is_all_clear() {
    let outcome = served();
    assert_eq!(outcome.action, "mcp.serve");
    assert_eq!(outcome.severity, Severity::Clear);
    assert_eq!(names(&outcome), [("shutdown".to_string(), "clean".to_string())]);
}

#[test]
fn verbosity_sets_the_log_level() {
    assert_eq!(default_log_level(0), "WARN");
    assert_eq!(default_log_level(1), "INFO");
    assert_eq!(default_log_level(2), "DEBUG");
    assert_eq!(default_log_level(255), "DEBUG");
}
