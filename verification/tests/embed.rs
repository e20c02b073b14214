//! The bundled playbooks.

use noetl_doctor::embed::{
    Bundled, DETECT_STUCK_EXECUTIONS, INSPECT_STALE_COMMANDS, PROVISION_DOCTOR_MCP,
    REACHABILITY_SMOKE, TRIGGER_COMMAND_REAPER,
};

#[test]
fn embedded_playbooks_are_non_empty_yaml() {
    for (name, body) in [
        ("detect_stuck_executions", DETECT_STUCK_EXECUTIONS),
        ("inspect_stale_commands", INSPECT_STALE_COMMANDS),
        ("reachability_smoke", REACHABILITY_SMOKE),
        ("trigger_command_reaper", TRIGGER_COMMAND_REAPER),
        ("provision_doctor_mcp", PROVISION_DOCTOR_MCP),
    ] {
        assert!(body.contains("apiVersion: noetl.io/v2"), "{name} missing apiVersion");
        assert!(body.contains("kind: Playbook"), "{name} missing kind");
    }
}

#[test]
fn provision_playbook_exposes_ops_style_action_dispatch() {
    let body = PROVISION_DOCTOR_MCP;
    assert!(body.contains("action: help"), "expected action: help default");
    for verb in ["deploy", "redeploy", "status", "destroy", "logs"] {
        assert!(body.contains(verb), "missing lifecycle verb: {verb}");
    }
    assert!(body.contains("ensure_kube_context"), "missing kube context guard");
}

/// Every bundled playbook has a mapping under `tool:` and a kind that the local runtime knows.
#[test]
fn embedded_playbooks_parse_under_local_runtime_schema() {
    const LOCAL_RUNTIME_TOOL_KINDS: &[&str] =
        &["shell", "http", "playbook", "duckdb", "auth", "sink", "rhai"];

    let cases = [
        ("detect_stuck_executions", DETECT_STUCK_EXECUTIONS),
        ("inspect_stale_commands", INSPECT_STALE_COMMANDS),
        ("reachability_smoke", REACHABILITY_SMOKE),
        ("trigger_command_reaper", TRIGGER_COMMAND_REAPER),
        ("provision_doctor_mcp", PROVISION_DOCTOR_MCP),
    ];

    for (name, body) in cases {
        let yaml: serde_yaml::Value =
            serde_yaml::from_str(body).unwrap_or_else(|e| panic!("{name}: yaml parse failed: {e}"));
        let workflow = yaml
            .get("workflow")
            .and_then(serde_yaml::Value::as_sequence)
            .unwrap_or_else(|| panic!("{name}: missing or non-sequence workflow"));

        for (i, step) in workflow.iter().enumerate() {
            let step_name =
                step.get("step").and_then(serde_yaml::Value::as_str).unwrap_or("<unnamed>");
            let Some(tool) = step.get("tool") else {
                continue;
            };
            assert!(
                tool.is_mapping(),
                "{name}: workflow[{i}] ({step_name}).tool must be a mapping for the \
                 `noetl run --runtime local` parser. Found: {tool:?}"
            );
            let kind = tool
                .get("kind")
                .and_then(serde_yaml::Value::as_str)
                .unwrap_or_else(|| panic!("{name}: workflow[{i}] ({step_name}).tool.kind missing"));
            assert!(
                LOCAL_RUNTIME_TOOL_KINDS.contains(&kind),
                "{name}: workflow[{i}] ({step_name}).tool.kind = '{kind}' is not \
                 supported by the Rust local-runtime parser. Allowed: {LOCAL_RUNTIME_TOOL_KINDS:?}"
            );
        }
    }
}

#[test]
fn bundled_playbooks_have_their_name_and_yaml() {
    assert_eq!(Bundled::DetectStuckExecutions.name(), "doctor/detect_stuck_executions");
    assert_eq!(Bundled::InspectStaleCommands.name(), "doctor/inspect_stale_commands");
    assert_eq!(Bundled::ReachabilitySmoke.name(), "doctor/reachability_smoke");
    assert_eq!(Bundled::TriggerCommandReaper.name(), "doctor/trigger_command_reaper");
    assert_eq!(Bundled::ProvisionDoctorMcp.name(), "doctor/provision_doctor_mcp");
    for playbook in [
        Bundled::DetectStuckExecutions,
        Bundled::InspectStaleCommands,
        Bundled::ReachabilitySmoke,
        Bundled::TriggerCommandReaper,
        Bundled::ProvisionDoctorMcp,
    ] {
        let path = format!("path: {}\n", playbook.name());
        assert!(playbook.yaml().contains(&path));
    }
}

#[test]
fn provision_status_selects_all_that_deploy_labels() {
    let body = PROVISION_DOCTOR_MCP;
    assert!(body.contains("get deployment,pod,service -l app=noetl-doctor"));
    // The deployment, its pods and the service.
    assert_eq!(body.matches(" labels: {app: noetl-doctor}").count(), 3);
}
