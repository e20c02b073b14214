//! The decisions of `noetl-doctor`, the out-of-process runtime reaper for NoETL.
//!
//! The doctor runs bundled playbooks with the `noetl` CLI and reports what came of them in one
//! stable shape. This crate decides: which playbook a subcommand or an MCP tool runs and with
//! which settings (`commands`, `mcp`, `embed`), how the `noetl` binary is called and what its
//! output means (`runner`, `extract`, `text`), and what is reported (`report`, `json`).
//! What the operations promise is stated over calls of them in `laws`.
//! Processes, files, the command line and the HTTP server are left to the program around it.

pub mod commands;
pub mod embed;
pub mod extract;
pub mod json;
pub mod laws;
pub mod mcp;
pub mod report;
pub mod runner;
pub mod text;
