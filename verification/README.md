# noetl-doctor

Out-of-process runtime reaper for NoETL. The doctor ships no execution engine: every subcommand
resolves to a playbook that the `noetl` CLI runs on the local runtime. It takes the last balanced
JSON object from the output of the run, reports it as an `Outcome`, and exits with 0 (all clear or
repaired), 2 (anomaly) or 3 (the doctor failed), so that monitoring can branch.

## Layout

- `src/`: the library, verified with Verus.
  - `extract.rs`: finding the report in the output of a run
  - `runner.rs`: which `noetl` binary, its arguments, what exit status and output mean
  - `commands.rs`: the subcommands: settings, dispatch, outcomes
  - `mcp.rs`: the tools of the MCP surface and the bodies that it sends
  - `report.rs`: severities, outcomes, exit codes
  - `json.rs`: JSON values; `text.rs`: numbers, pairs and cut-down output
  - `embed.rs`: the bundled playbooks
- `app/`: the program: command line, processes, temporary files, HTTP server.
- `tests/`: tests of the library.

## What is trusted

Proofs rest on these calls as their contracts state them: `serde_json::from_slice` with
`Value::get`, `Value::as_str` and `Value::as_bool` (`json.rs`), `String::from_utf8_lossy`
(`text.rs`), and `chrono::Utc::now` with `DateTime::to_rfc3339` (`report.rs`).
`std::path::PathBuf` is carried without being looked into.
