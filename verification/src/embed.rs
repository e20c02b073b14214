//! The playbooks that ship with the doctor.
//!
//! They are part of the binary, so that it can be dropped on any host without a playbook tree
//! beside it. Each dispatches on `workload.action` and uses only tools of the local runtime.
//! Four print their report as one JSON object. The provisioning playbook prints none: its output
//! is that of `kubectl`, or its usage.

use vstd::prelude::*;

verus! {

pub const DETECT_STUCK_EXECUTIONS_NAME: &'static str = "doctor/detect_stuck_executions";

pub const INSPECT_STALE_COMMANDS_NAME: &'static str = "doctor/inspect_stale_commands";

pub const REACHABILITY_SMOKE_NAME: &'static str = "doctor/reachability_smoke";

pub const TRIGGER_COMMAND_REAPER_NAME: &'static str = "doctor/trigger_command_reaper";

pub const PROVISION_DOCTOR_MCP_NAME: &'static str = "doctor/provision_doctor_mcp";

/// Detects stuck executions and stale commands.
pub const DETECT_STUCK_EXECUTIONS: &'static str = r##"apiVersion: noetl.io/v2
kind: Playbook
metadata:
  name: detect_stuck_executions
  path: doctor/detect_stuck_executions
  description: Detect stuck executions and stale commands.
workload:
  action: detect
  noetl_server_url: http://localhost:8082
  pg_dsn: ""
  stale_seconds: 300
  pending_retry_seconds: 60
  max_rows: 200
workflow:
  - step: start
    desc: Dispatch on the action.
    next:
      arcs:
        - step: detect
          when: "{{ workload.action == 'detect' }}"
        - step: show_help
          when: "{{ workload.action != 'detect' }}"
  - step: detect
    desc: Report stale commands, or long-running executions where no DSN is set.
    tool:
      kind: shell
      cmds:
        - |
          set -eu
          dsn='{{ workload.pg_dsn }}'
          url='{{ workload.noetl_server_url }}'
          stale='{{ workload.stale_seconds }}'
          pending='{{ workload.pending_retry_seconds }}'
          rows='{{ workload.max_rows }}'
          if [ -n "$dsn" ]; then
            found=$(psql "$dsn" -X -q -A -t -c "
              SELECT coalesce(jsonb_agg(to_jsonb(c)), '[]'::jsonb) FROM (
                SELECT * FROM noetl.command
                WHERE (status IN ('CLAIMED', 'RUNNING')
                       AND updated_at < now() - make_interval(secs => $stale))
                   OR (status = 'PENDING'
                       AND updated_at < now() - make_interval(secs => $pending))
                ORDER BY updated_at
                LIMIT $rows) c")
            source=postgres
          else
            found=$(curl -fsS "$url/api/executions" | jq -c --argjson stale "$stale" --argjson rows "$rows" '
              [ (.items? // .)[]
                | select(.status == "RUNNING")
                | select(((.start_time // "") | sub("\\..*$"; "Z") | fromdateiso8601? // now) < now - $stale)
              ] | .[:$rows]')
            source=api
          fi
          printf '%s' "$found" | jq -c --arg source "$source" '
            { status: (if length > 0 then "stuck" else "ok" end),
              source: $source,
              count: length,
              rows: . }'
    next:
      arcs:
        - step: end
  - step: show_help
    desc: Print usage.
    tool:
      kind: shell
      cmds:
        - |
          echo "actions: detect | help"
          echo "set: noetl_server_url, pg_dsn, stale_seconds, pending_retry_seconds, max_rows"
    next:
      arcs:
        - step: end
  - step: end
    desc: Done.
"##;

/// Shows the unfinished commands of one execution.
pub const INSPECT_STALE_COMMANDS: &'static str = r##"apiVersion: noetl.io/v2
kind: Playbook
metadata:
  name: inspect_stale_commands
  path: doctor/inspect_stale_commands
  description: Show the commands of one execution that have not finished.
workload:
  action: inspect
  execution_id: ""
  pg_dsn: ""
  max_rows: 200
workflow:
  - step: start
    desc: Dispatch on the action.
    next:
      arcs:
        - step: inspect
          when: "{{ workload.action == 'inspect' }}"
        - step: show_help
          when: "{{ workload.action != 'inspect' }}"
  - step: inspect
    desc: Report the unfinished commands of the execution.
    tool:
      kind: shell
      cmds:
        - |
          set -eu
          dsn='{{ workload.pg_dsn }}'
          execution='{{ workload.execution_id }}'
          rows='{{ workload.max_rows }}'
          if [ -z "$dsn" ] || [ -z "$execution" ]; then
            jq -n -c '{ status: "error", error: "pg_dsn and execution_id are required" }'
            exit 0
          fi
          psql "$dsn" -X -q -A -t -v execution="$execution" <<SQL | jq -c --arg execution "$execution" '
            { status: (if length > 0 then "stuck" else "ok" end),
              execution_id: $execution,
              count: length,
              rows: . }'
          SELECT coalesce(jsonb_agg(to_jsonb(c)), '[]'::jsonb) FROM (
            SELECT * FROM noetl.command
            WHERE execution_id::text = :'execution'
              AND status IN ('PENDING', 'CLAIMED', 'RUNNING')
            ORDER BY updated_at
            LIMIT $rows) c;
          SQL
    next:
      arcs:
        - step: end
  - step: show_help
    desc: Print usage.
    tool:
      kind: shell
      cmds:
        - |
          echo "actions: inspect | help"
          echo "set: execution_id, pg_dsn, max_rows"
    next:
      arcs:
        - step: end
  - step: end
    desc: Done.
"##;

/// Probes the NoETL server, Postgres and the worker pools.
pub const REACHABILITY_SMOKE: &'static str = r##"apiVersion: noetl.io/v2
kind: Playbook
metadata:
  name: reachability_smoke
  path: doctor/reachability_smoke
  description: Probe the NoETL server, Postgres and the worker pools.
workload:
  action: probe
  noetl_server_url: http://localhost:8082
  pg_dsn: ""
workflow:
  - step: start
    desc: Dispatch on the action.
    next:
      arcs:
        - step: probe
          when: "{{ workload.action == 'probe' }}"
        - step: show_help
          when: "{{ workload.action != 'probe' }}"
  - step: probe
    desc: Probe each part and report whether all of them answer.
    tool:
      kind: shell
      cmds:
        - |
          set -u
          dsn='{{ workload.pg_dsn }}'
          url='{{ workload.noetl_server_url }}'
          server=false
          pools=false
          postgres=null
          if curl -fsS --max-time 10 "$url/api/health" > /dev/null; then server=true; fi
          if curl -fsS --max-time 10 "$url/api/worker/pools" > /dev/null; then pools=true; fi
          if [ -n "$dsn" ]; then
            if psql "$dsn" -X -q -A -t -c 'SELECT 1' > /dev/null; then postgres=true; else postgres=false; fi
          fi
          jq -n -c --argjson server "$server" --argjson pools "$pools" --argjson postgres "$postgres" '
            { ok: ($server and $pools and ($postgres != false)),
              server: $server,
              worker_pools: $pools,
              postgres: $postgres }'
    next:
      arcs:
        - step: end
  - step: show_help
    desc: Print usage.
    tool:
      kind: shell
      cmds:
        - |
          echo "actions: probe | help"
          echo "set: noetl_server_url, pg_dsn"
    next:
      arcs:
        - step: end
  - step: end
    desc: Done.
"##;

/// Asks the NoETL server for one command-reaper sweep.
pub const TRIGGER_COMMAND_REAPER: &'static str = r##"apiVersion: noetl.io/v2
kind: Playbook
metadata:
  name: trigger_command_reaper
  path: doctor/trigger_command_reaper
  description: Ask the NoETL server for one command-reaper sweep.
workload:
  action: trigger
  noetl_server_url: http://localhost:8082
workflow:
  - step: start
    desc: Dispatch on the action.
    next:
      arcs:
        - step: trigger
          when: "{{ workload.action == 'trigger' }}"
        - step: show_help
          when: "{{ workload.action != 'trigger' }}"
  - step: trigger
    desc: Post the sweep request; a server without the endpoint sweeps on its own interval.
    tool:
      kind: shell
      cmds:
        - |
          set -u
          url='{{ workload.noetl_server_url }}'
          code=$(curl -sS -o /dev/null -w '%{http_code}' --max-time 30 -X POST "$url/api/admin/command-reaper/sweep") || code=0
          case "$code" in
            2??) status=ok ;;
            404) status=noop ;;
            *) status=error ;;
          esac
          jq -n -c --arg status "$status" --arg code "$code" '{ status: $status, http_code: ($code | tonumber) }'
    next:
      arcs:
        - step: end
  - step: show_help
    desc: Print usage.
    tool:
      kind: shell
      cmds:
        - |
          echo "actions: trigger | help"
          echo "set: noetl_server_url"
    next:
      arcs:
        - step: end
  - step: end
    desc: Done.
"##;

/// Provisions the doctor's own MCP server.
pub const PROVISION_DOCTOR_MCP: &'static str = r##"apiVersion: noetl.io/v2
kind: Playbook
metadata:
  name: provision_doctor_mcp
  path: doctor/provision_doctor_mcp
  description: Lifecycle of the doctor MCP server in Kubernetes.
workload:
  action: help
  namespace: noetl-doctor
  expected_kube_context: kind-noetl
  image: ghcr.io/noetl/doctor:0.1.0
  noetl_url: http://noetl-server.noetl.svc.cluster.local:80
  pg_dsn: ""
workflow:
  - step: start
    desc: Dispatch on the action.
    next:
      arcs:
        - step: show_help
          when: "{{ workload.action not in ['deploy', 'redeploy', 'status', 'destroy', 'logs'] }}"
        - step: ensure_kube_context
          when: "{{ workload.action in ['deploy', 'redeploy', 'status', 'destroy', 'logs'] }}"
  - step: ensure_kube_context
    desc: Refuse to run against any other cluster.
    tool:
      kind: shell
      cmds:
        - |
          set -eu
          expected='{{ workload.expected_kube_context }}'
          current=$(kubectl config current-context)
          if [ "$current" != "$expected" ]; then
            echo "kubectl context is $current, expected $expected" >&2
            exit 1
          fi
    next:
      arcs:
        - step: deploy
          when: "{{ workload.action == 'deploy' }}"
        - step: redeploy
          when: "{{ workload.action == 'redeploy' }}"
        - step: status
          when: "{{ workload.action == 'status' }}"
        - step: destroy
          when: "{{ workload.action == 'destroy' }}"
        - step: logs
          when: "{{ workload.action == 'logs' }}"
  - step: deploy
    desc: Apply service account, secret, deployment and service.
    tool:
      kind: shell
      cmds:
        - |
          set -eu
          ns='{{ workload.namespace }}'
          dsn='{{ workload.pg_dsn }}'
          kubectl create namespace "$ns" --dry-run=client -o yaml | kubectl apply -f -
          if [ -n "$dsn" ]; then
            kubectl -n "$ns" create secret generic noetl-doctor-pg --from-literal=dsn="$dsn" --dry-run=client -o yaml | kubectl apply -f -
          fi
          kubectl -n "$ns" apply -f - <<'MANIFEST'
          apiVersion: v1
          kind: ServiceAccount
          metadata:
            name: noetl-doctor
          ---
          apiVersion: apps/v1
          kind: Deployment
          metadata:
            name: noetl-doctor
            labels: {app: noetl-doctor}
          spec:
            replicas: 1
            selector:
              matchLabels: {app: noetl-doctor}
            template:
              metadata:
                labels: {app: noetl-doctor}
              spec:
                serviceAccountName: noetl-doctor
                containers:
                  - name: noetl-doctor
                    image: {{ workload.image }}
                    args: [mcp, serve, --host, 0.0.0.0, --port, "8765"]
                    env:
                      - name: NOETL_DOCTOR_NOETL_URL
                        value: {{ workload.noetl_url }}
                      - name: NOETL_DOCTOR_PG_DSN
                        valueFrom:
                          secretKeyRef: {name: noetl-doctor-pg, key: dsn, optional: true}
                    ports:
                      - containerPort: 8765
                    readinessProbe:
                      httpGet: {path: /healthz, port: 8765}
          ---
          apiVersion: v1
          kind: Service
          metadata:
            name: noetl-doctor
            labels: {app: noetl-doctor}
          spec:
            selector: {app: noetl-doctor}
            ports:
              - port: 8765
                targetPort: 8765
          MANIFEST
          kubectl -n "$ns" rollout status deployment/noetl-doctor --timeout=120s
    next:
      arcs:
        - step: end
  - step: redeploy
    desc: Roll the deployment over to the image.
    tool:
      kind: shell
      cmds:
        - |
          set -eu
          ns='{{ workload.namespace }}'
          kubectl -n "$ns" set image deployment/noetl-doctor noetl-doctor='{{ workload.image }}'
          kubectl -n "$ns" rollout restart deployment/noetl-doctor
          kubectl -n "$ns" rollout status deployment/noetl-doctor --timeout=120s
    next:
      arcs:
        - step: end
  - step: status
    desc: Show what is deployed.
    tool:
      kind: shell
      cmds:
        - kubectl -n '{{ workload.namespace }}' get deployment,pod,service -l app=noetl-doctor
    next:
      arcs:
        - step: end
  - step: destroy
    desc: Remove what was deployed.
    tool:
      kind: shell
      cmds:
        - kubectl -n '{{ workload.namespace }}' delete deployment/noetl-doctor service/noetl-doctor serviceaccount/noetl-doctor secret/noetl-doctor-pg --ignore-not-found
    next:
      arcs:
        - step: end
  - step: logs
    desc: Show recent log lines.
    tool:
      kind: shell
      cmds:
        - kubectl -n '{{ workload.namespace }}' logs deployment/noetl-doctor --tail=200
    next:
      arcs:
        - step: end
  - step: show_help
    desc: Print usage.
    tool:
      kind: shell
      cmds:
        - |
          echo "actions: deploy | redeploy | status | destroy | logs | help"
          echo "set: namespace, expected_kube_context, image, noetl_url, pg_dsn"
    next:
      arcs:
        - step: end
  - step: end
    desc: Done.
"##;

/// A bundled playbook.
#[derive(Debug, Clone, Copy, PartialEq, Eq, Structural)]
pub enum Bundled {
    DetectStuckExecutions,
    InspectStaleCommands,
    ReachabilitySmoke,
    TriggerCommandReaper,
    ProvisionDoctorMcp,
}

/// The catalog name of a bundled playbook.
pub open spec fn name_of(playbook: Bundled) -> Seq<char> {
    match playbook {
        Bundled::DetectStuckExecutions => DETECT_STUCK_EXECUTIONS_NAME@,
        Bundled::InspectStaleCommands => INSPECT_STALE_COMMANDS_NAME@,
        Bundled::ReachabilitySmoke => REACHABILITY_SMOKE_NAME@,
        Bundled::TriggerCommandReaper => TRIGGER_COMMAND_REAPER_NAME@,
        Bundled::ProvisionDoctorMcp => PROVISION_DOCTOR_MCP_NAME@,
    }
}

/// The YAML of a bundled playbook.
pub open spec fn yaml_of(playbook: Bundled) -> Seq<char> {
    match playbook {
        Bundled::DetectStuckExecutions => DETECT_STUCK_EXECUTIONS@,
        Bundled::InspectStaleCommands => INSPECT_STALE_COMMANDS@,
        Bundled::ReachabilitySmoke => REACHABILITY_SMOKE@,
        Bundled::TriggerCommandReaper => TRIGGER_COMMAND_REAPER@,
        Bundled::ProvisionDoctorMcp => PROVISION_DOCTOR_MCP@,
    }
}

impl Bundled {
    /// The catalog name of the playbook.
    pub fn name(self) -> (name: &'static str)
        ensures
            name@ == name_of(self),
    {
        match self {
            Bundled::DetectStuckExecutions => DETECT_STUCK_EXECUTIONS_NAME,
            Bundled::InspectStaleCommands => INSPECT_STALE_COMMANDS_NAME,
            Bundled::ReachabilitySmoke => REACHABILITY_SMOKE_NAME,
            Bundled::TriggerCommandReaper => TRIGGER_COMMAND_REAPER_NAME,
            Bundled::ProvisionDoctorMcp => PROVISION_DOCTOR_MCP_NAME,
        }
    }

    /// The YAML of the playbook.
    pub fn yaml(self) -> (yaml: &'static str)
        ensures
            yaml@ == yaml_of(self),
    {
        match self {
            Bundled::DetectStuckExecutions => DETECT_STUCK_EXECUTIONS,
            Bundled::InspectStaleCommands => INSPECT_STALE_COMMANDS,
            Bundled::ReachabilitySmoke => REACHABILITY_SMOKE,
            Bundled::TriggerCommandReaper => TRIGGER_COMMAND_REAPER,
            Bundled::ProvisionDoctorMcp => PROVISION_DOCTOR_MCP,
        }
    }
}

} // verus!
