//! The subcommands of the doctor.
//!
//! Every subcommand but the listing of playbooks and the MCP server is one run of a playbook:
//! a job says which playbook runs with which `--set` pairs, and what the reported value means
//! is settled once the run is over.

use vstd::prelude::*;
#[allow(unused_imports)]
use vstd::utf8::*;

use std::path::PathBuf;

use crate::embed;
use crate::embed::Bundled;
use crate::extract;
use crate::json;
use crate::json::{add_member, Json};
#[allow(unused_imports)]
use crate::json::JsonModel;
use crate::report;
use crate::report::Outcome;
#[allow(unused_imports)]
use crate::report::Severity;
use crate::runner;
use crate::runner::{binary_error, DoctorError, PlaybookRunOptions, PlaybookRunner};
use crate::text;
use crate::text::{write_count, write_pair};

verus! {

/// What the global flags set.
#[derive(Debug)]
pub struct Config {
    /// Base URL of the NoETL server.
    pub noetl_url: String,
    /// Postgres DSN to the NoETL database.
    pub pg_dsn: Option<String>,
    /// Stale threshold for claimed and running commands, in seconds, as it is written.
    pub stale_seconds: String,
    /// Stale threshold for pending commands, in seconds, as it is written.
    pub pending_retry_seconds: String,
    /// Maximum rows per detection query.
    pub max_rows: u32,
}

/// A lifecycle verb of the provisioning playbook.
#[derive(Debug, Clone, Copy, PartialEq, Eq, Structural)]
pub enum ProvisionAction {
    Deploy,
    Redeploy,
    Status,
    Destroy,
    Logs,
    Help,
}

/// The verb as the provisioning playbook knows it.
pub open spec fn verb(action: ProvisionAction) -> Seq<char> {
    match action {
        ProvisionAction::Deploy => "deploy"@,
        ProvisionAction::Redeploy => "redeploy"@,
        ProvisionAction::Status => "status"@,
        ProvisionAction::Destroy => "destroy"@,
        ProvisionAction::Logs => "logs"@,
        ProvisionAction::Help => "help"@,
    }
}

impl ProvisionAction {
    /// The verb as the provisioning playbook knows it.
    pub fn as_str(self) -> (text: &'static str)
        ensures
            text@ == verb(self),
    {
        match self {
            ProvisionAction::Deploy => "deploy",
            ProvisionAction::Redeploy => "redeploy",
            ProvisionAction::Status => "status",
            ProvisionAction::Destroy => "destroy",
            ProvisionAction::Logs => "logs",
            ProvisionAction::Help => "help",
        }
    }
}

/// A repair action.
#[derive(Debug)]
pub enum RepairAction {
    /// Ask the NoETL server for one command-reaper sweep.
    TriggerReaper,
    /// Run any local-runtime playbook.
    RunPlaybook { playbook: PathBuf, set: Vec<String> },
}

/// An action of the MCP surface.
#[derive(Debug)]
pub enum McpAction {
    /// Serve the tools over HTTP.
    Serve { host: String, port: u16 },
}

/// What the options of `provision` set.
#[derive(Debug)]
pub struct ProvisionOptions {
    pub action: ProvisionAction,
    pub image: Option<String>,
    pub namespace: String,
    pub expected_kube_context: String,
    pub set: Vec<String>,
}

/// A subcommand.
#[derive(Debug)]
pub enum Command {
    Detect,
    Reachability,
    Repair(RepairAction),
    Provision(ProvisionOptions),
    Mcp(McpAction),
    Playbooks,
}

/// What a playbook run is for.
#[derive(Debug, Clone, Copy, PartialEq, Eq, Structural)]
pub enum Job {
    Detect,
    Reachability,
    TriggerReaper,
    RunPlaybook,
    Provision(ProvisionAction),
}

/// Where a playbook comes from.
#[derive(Debug)]
pub enum PlaybookSource {
    Bundled(Bundled),
    File(PathBuf),
}

/// A playbook run that is still to be made.
#[derive(Debug)]
pub struct PlaybookJob {
    pub job: Job,
    pub source: PlaybookSource,
    pub set: Vec<String>,
}

/// What a subcommand asks for.
#[derive(Debug)]
pub enum Plan {
    /// Nothing is left to do, and no `noetl` binary is needed.
    Finished(Outcome),
    /// Run a playbook.
    Run(PlaybookJob),
    /// Serve the tools over HTTP, with the configuration for every invocation.
    Serve { host: String, port: u16, config: Config },
}

/// The `--set` pairs as mathematical values.
pub open spec fn set_view(set: Seq<String>) -> Seq<Seq<char>> {
    set.map_values(|pair: String| pair@)
}

/// The pair for the DSN, where there is one.
pub open spec fn dsn_set(pg_dsn: Option<String>) -> Seq<Seq<char>> {
    match pg_dsn {
        Some(dsn) => seq![text::pair("pg_dsn"@, dsn@)],
        None => seq![],
    }
}

/// The pairs for a detection run.
pub open spec fn detect_set(config: Config) -> Seq<Seq<char>> {
    seq![
        text::pair("action"@, "detect"@),
        text::pair("noetl_server_url"@, config.noetl_url@),
        text::pair("stale_seconds"@, config.stale_seconds@),
        text::pair("pending_retry_seconds"@, config.pending_retry_seconds@),
        text::pair("max_rows"@, text::decimal(config.max_rows as nat)),
    ] + dsn_set(config.pg_dsn)
}

/// The pairs for a reachability run.
pub open spec fn reachability_set(config: Config) -> Seq<Seq<char>> {
    seq![
        text::pair("action"@, "probe"@),
        text::pair("noetl_server_url"@, config.noetl_url@),
    ] + dsn_set(config.pg_dsn)
}

/// The pairs for a run that triggers the reaper.
pub open spec fn trigger_reaper_set(config: Config) -> Seq<Seq<char>> {
    seq![
        text::pair("action"@, "trigger"@),
        text::pair("noetl_server_url"@, config.noetl_url@),
    ]
}

/// The pair for the image, where one is given.
pub open spec fn image_set(image: Option<String>) -> Seq<Seq<char>> {
    match image {
        Some(name) => seq![text::pair("image"@, name@)],
        None => seq![],
    }
}

/// The pairs that a provisioning run sets of itself.
pub open spec fn provision_defaults(options: ProvisionOptions) -> Seq<Seq<char>> {
    seq![
        text::pair("action"@, verb(options.action)),
        text::pair("namespace"@, options.namespace@),
        text::pair("expected_kube_context"@, options.expected_kube_context@),
    ] + image_set(options.image)
}

/// The pairs for a provisioning run: its own, then those of the caller.
pub open spec fn provision_set(options: ProvisionOptions) -> Seq<Seq<char>> {
    provision_defaults(options) + set_view(options.set@)
}

/// Adds a `key=value` pair.
fn add_pair(set: &mut Vec<String>, key: &str, value: &str)
    ensures
        set_view(final(set)@) == set_view(old(set)@).push(text::pair(key@, value@)),
{
    set.push(write_pair(key, value));
    assert(set_view(set@) =~= set_view(old(set)@).push(text::pair(key@, value@)));
}

/// Adds the pair for the DSN, where there is one.
fn add_dsn(set: &mut Vec<String>, pg_dsn: &Option<String>)
    ensures
        set_view(final(set)@) == set_view(old(set)@) + dsn_set(*pg_dsn),
{
    if let Some(dsn) = pg_dsn {
        add_pair(set, "pg_dsn", dsn.as_str());
    }
    assert(set_view(set@) =~= set_view(old(set)@) + dsn_set(*pg_dsn));
}

/// The job that looks for stuck executions and stale commands.
pub fn detect(config: &Config) -> (job: PlaybookJob)
    ensures
        job.job == Job::Detect,
        job.source == PlaybookSource::Bundled(Bundled::DetectStuckExecutions),
        set_view(job.set@) == detect_set(*config),
{
    let mut set: Vec<String> = Vec::new();
    add_pair(&mut set, "action", "detect");
    add_pair(&mut set, "noetl_server_url", config.noetl_url.as_str());
    add_pair(&mut set, "stale_seconds", config.stale_seconds.as_str());
    add_pair(&mut set, "pending_retry_seconds", config.pending_retry_seconds.as_str());
    let ghost before = set_view(set@);
    set.push(write_count("max_rows", config.max_rows as u64));
    assert(set_view(set@) =~= before.push(
        text::pair("max_rows"@, text::decimal(config.max_rows as nat)),
    ));
    add_dsn(&mut set, &config.pg_dsn);
    assert(set_view(set@) =~= detect_set(*config));
    PlaybookJob {
        job: Job::Detect,
        source: PlaybookSource::Bundled(Bundled::DetectStuckExecutions),
        set,
    }
}

/// The job that probes server, Postgres and worker pools.
pub fn reachability(config: &Config) -> (job: PlaybookJob)
    ensures
        job.job == Job::Reachability,
        job.source == PlaybookSource::Bundled(Bundled::ReachabilitySmoke),
        set_view(job.set@) == reachability_set(*config),
{
    let mut set: Vec<String> = Vec::new();
    add_pair(&mut set, "action", "probe");
    add_pair(&mut set, "noetl_server_url", config.noetl_url.as_str());
    add_dsn(&mut set, &config.pg_dsn);
    assert(set_view(set@) =~= reachability_set(*config));
    PlaybookJob {
        job: Job::Reachability,
        source: PlaybookSource::Bundled(Bundled::ReachabilitySmoke),
        set,
    }
}

/// The job that asks the NoETL server for one command-reaper sweep.
pub fn trigger_reaper(config: &Config) -> (job: PlaybookJob)
    ensures
        job.job == Job::TriggerReaper,
        job.source == PlaybookSource::Bundled(Bundled::TriggerCommandReaper),
        set_view(job.set@) == trigger_reaper_set(*config),
{
    let mut set: Vec<String> = Vec::new();
    add_pair(&mut set, "action", "trigger");
    add_pair(&mut set, "noetl_server_url", config.noetl_url.as_str());
    assert(set_view(set@) =~= trigger_reaper_set(*config));
    PlaybookJob {
        job: Job::TriggerReaper,
        source: PlaybookSource::Bundled(Bundled::TriggerCommandReaper),
        set,
    }
}

/// The job that runs any playbook, with the pairs of the caller and no others.
pub fn run_playbook(playbook: PathBuf, set: Vec<String>) -> (job: PlaybookJob)
    ensures
        job.job == Job::RunPlaybook,
        job.source == PlaybookSource::File(playbook),
        job.set == set,
{
    PlaybookJob { job: Job::RunPlaybook, source: PlaybookSource::File(playbook), set }
}

/// The job that provisions the MCP server. The pairs of the caller come last, and the `noetl`
/// CLI lets later pairs win over earlier ones.
pub fn provision(options: ProvisionOptions) -> (job: PlaybookJob)
    ensures
        job.job == Job::Provision(options.action),
        job.source == PlaybookSource::Bundled(Bundled::ProvisionDoctorMcp),
        set_view(job.set@) == provision_set(options),
{
    let mut set: Vec<String> = Vec::new();
    add_pair(&mut set, "action", options.action.as_str());
    add_pair(&mut set, "namespace", options.namespace.as_str());
    add_pair(&mut set, "expected_kube_context", options.expected_kube_context.as_str());
    if let Some(image) = &options.image {
        add_pair(&mut set, "image", image.as_str());
    }
    assert(set_view(set@) =~= provision_defaults(options));
    let mut extra = options.set;
    set.append(&mut extra);
    assert(set_view(set@) =~= provision_set(options));
    PlaybookJob {
        job: Job::Provision(options.action),
        source: PlaybookSource::Bundled(Bundled::ProvisionDoctorMcp),
        set,
    }
}

/// The names of the bundled playbooks, by the name of their files.
pub open spec fn playbooks_model() -> JsonModel {
    JsonModel::Object(
        seq![
            (
                "detect_stuck_executions"@,
                JsonModel::Text(embed::name_of(Bundled::DetectStuckExecutions)),
            ),
            (
                "inspect_stale_commands"@,
                JsonModel::Text(embed::name_of(Bundled::InspectStaleCommands)),
            ),
            (
                "provision_doctor_mcp"@,
                JsonModel::Text(embed::name_of(Bundled::ProvisionDoctorMcp)),
            ),
            (
                "reachability_smoke"@,
                JsonModel::Text(embed::name_of(Bundled::ReachabilitySmoke)),
            ),
            (
                "trigger_command_reaper"@,
                JsonModel::Text(embed::name_of(Bundled::TriggerCommandReaper)),
            ),
        ],
    )
}

/// Lists the bundled playbooks.
pub fn list_playbooks() -> (outcome: Outcome)
    ensures
        outcome.reports("playbooks"@, Severity::Clear, playbooks_model()),
{
    let mut members: Vec<(String, Json)> = Vec::new();
    add_member(
        &mut members,
        "detect_stuck_executions",
        Json::text(Bundled::DetectStuckExecutions.name()),
    );
    add_member(
        &mut members,
        "inspect_stale_commands",
        Json::text(Bundled::InspectStaleCommands.name()),
    );
    add_member(
        &mut members,
        "provision_doctor_mcp",
        Json::text(Bundled::ProvisionDoctorMcp.name()),
    );
    add_member(&mut members, "reachability_smoke", Json::text(Bundled::ReachabilitySmoke.name()));
    add_member(
        &mut members,
        "trigger_command_reaper",
        Json::text(Bundled::TriggerCommandReaper.name()),
    );
    let value = Json::object(members);
    assert(value@->Object_0 =~= playbooks_model()->Object_0);
    Outcome::ok("playbooks".to_owned(), value)
}

/// The plan for a subcommand.
pub open spec fn plan_for(command: Command, config: Config, plan: Plan) -> bool {
    match command {
        Command::Playbooks => match plan {
            Plan::Finished(outcome) => outcome.reports(
                "playbooks"@,
                Severity::Clear,
                playbooks_model(),
            ),
            _ => false,
        },
        Command::Detect => match plan {
            Plan::Run(job) => {
                &&& job.job == Job::Detect
                &&& job.source == PlaybookSource::Bundled(Bundled::DetectStuckExecutions)
                &&& set_view(job.set@) == detect_set(config)
            },
            _ => false,
        },
        Command::Reachability => match plan {
            Plan::Run(job) => {
                &&& job.job == Job::Reachability
                &&& job.source == PlaybookSource::Bundled(Bundled::ReachabilitySmoke)
                &&& set_view(job.set@) == reachability_set(config)
            },
            _ => false,
        },
        Command::Repair(RepairAction::TriggerReaper) => match plan {
            Plan::Run(job) => {
                &&& job.job == Job::TriggerReaper
                &&& job.source == PlaybookSource::Bundled(Bundled::TriggerCommandReaper)
                &&& set_view(job.set@) == trigger_reaper_set(config)
            },
            _ => false,
        },
        Command::Repair(RepairAction::RunPlaybook { playbook, set }) => match plan {
            Plan::Run(job) => {
                &&& job.job == Job::RunPlaybook
                &&& job.source == PlaybookSource::File(playbook)
                &&& job.set == set
            },
            _ => false,
        },
        Command::Provision(options) => match plan {
            Plan::Run(job) => {
                &&& job.job == Job::Provision(options.action)
                &&& job.source == PlaybookSource::Bundled(Bundled::ProvisionDoctorMcp)
                &&& set_view(job.set@) == provision_set(options)
            },
            _ => false,
        },
        Command::Mcp(McpAction::Serve { host, port }) => plan == Plan::Serve { host, port, config },
    }
}

/// Settles what a subcommand asks for.
pub fn dispatch(command: Command, config: Config) -> (plan: Plan)
    ensures
        plan_for(command, config, plan),
{
    match command {
        Command::Playbooks => Plan::Finished(list_playbooks()),
        Command::Detect => Plan::Run(detect(&config)),
        Command::Reachability => Plan::Run(reachability(&config)),
        Command::Repair(action) => match action {
            RepairAction::TriggerReaper => Plan::Run(trigger_reaper(&config)),
            RepairAction::RunPlaybook { playbook, set } => Plan::Run(run_playbook(playbook, set)),
        },
        Command::Provision(options) => Plan::Run(provision(options)),
        Command::Mcp(action) => match action {
            McpAction::Serve { host, port } => Plan::Serve { host, port, config },
        },
    }
}

/// What is to be done next, with all that it needs at hand.
#[derive(Debug)]
pub enum Step {
    /// Report the outcome.
    Finished(Outcome),
    /// Run a playbook, and conclude from what it reports.
    Run { runner: PlaybookRunner, job: PlaybookJob },
    /// Serve the tools over HTTP.
    Serve { runner: PlaybookRunner, host: String, port: u16, config: Config },
}

/// `step` is what a plan comes to with the given binary. A finished plan needs none; without
/// one, any other plan fails before anything is run or served.
pub open spec fn step_for(
    plan: Plan,
    binary: Result<PathBuf, DoctorError>,
    step: Result<Step, String>,
) -> bool {
    match plan {
        Plan::Finished(outcome) => step == Ok::<Step, String>(Step::Finished(outcome)),
        Plan::Run(job) => match (binary, step) {
            (Ok(path), Ok(Step::Run { runner, job: kept })) => runner@ == path && kept == job,
            (Err(error), Err(text)) => text@ == runner::binary_error_text(error),
            _ => false,
        },
        Plan::Serve { host, port, config } => match (binary, step) {
            (Ok(path), Ok(Step::Serve { runner, host: h, port: p, config: c })) => {
                &&& runner@ == path
                &&& h == host
                &&& p == port
                &&& c == config
            },
            (Err(error), Err(text)) => text@ == runner::binary_error_text(error),
            _ => false,
        },
    }
}

/// Settles what to do next, given which binary there is to run playbooks with. The error is
/// the message for people.
pub fn start(plan: Plan, binary: Result<PathBuf, DoctorError>) -> (step: Result<Step, String>)
    ensures
        step_for(plan, binary, step),
{
    match plan {
        Plan::Finished(outcome) => Ok(Step::Finished(outcome)),
        Plan::Run(job) => match binary {
            Ok(path) => Ok(Step::Run { runner: PlaybookRunner::new(path), job }),
            Err(error) => Err(binary_error(&error)),
        },
        Plan::Serve { host, port, config } => match binary {
            Ok(path) => Ok(Step::Serve { runner: PlaybookRunner::new(path), host, port, config }),
            Err(error) => Err(binary_error(&error)),
        },
    }
}

impl PlaybookJob {
    /// The run to make, once the playbook is at a path. Playbooks run on the local runtime.
    pub fn into_options(self, playbook: PathBuf) -> (options: PlaybookRunOptions)
        ensures
            options.playbook == playbook,
            options.set == self.set,
            options.runtime@ == "local"@,
    {
        PlaybookRunOptions { playbook, set: self.set, runtime: "local" }
    }
}

/// The status of a reported value, or `unknown`.
pub open spec fn status_text(value: JsonModel) -> Seq<char> {
    match json::status_of(value) {
        Some(status) => status,
        None => "unknown"@,
    }
}

/// The status that a playbook reported, or `unknown` where it reported none.
pub fn extract_status(value: &Json) -> (status: String)
    ensures
        status@ == status_text(value@),
{
    match value.status() {
        Some(status) => status,
        None => "unknown".to_owned(),
    }
}

/// The name of the action that an outcome is of.
pub open spec fn job_action(job: Job) -> Seq<char> {
    match job {
        Job::Detect => "detect"@,
        Job::Reachability => "reachability"@,
        Job::TriggerReaper => "repair.trigger_reaper"@,
        Job::RunPlaybook => "repair.run_playbook"@,
        Job::Provision(action) => "provision."@ + verb(action),
    }
}

/// How a job ended, by the value that it reported.
pub open spec fn job_severity(job: Job, value: JsonModel) -> Severity {
    match job {
        Job::Detect => report::severity_of_status(status_text(value)),
        Job::Reachability => report::severity_of_flag(json::ok_of(value) == Some(true)),
        Job::TriggerReaper => report::severity_of_status(status_text(value)),
        Job::RunPlaybook => Severity::Clear,
        Job::Provision(_) => Severity::Clear,
    }
}

/// Makes an outcome of the value that a job reported. Detection and the reaper trigger go by
/// the reported status, reachability by the reported flag. The other jobs report nothing that
/// tells how they ended, and a run that failed never gets here, so they are all clear.
pub fn conclude(job: Job, value: Json) -> (outcome: Outcome)
    ensures
        outcome.reports(job_action(job), job_severity(job, value@), value@),
{
    match job {
        Job::Detect => {
            let status = extract_status(&value);
            Outcome::from_status("detect".to_owned(), status.as_str(), value)
        },
        Job::Reachability => {
            let ok = match value.ok() {
                Some(flag) => flag,
                None => false,
            };
            Outcome::for_bool("reachability".to_owned(), ok, value)
        },
        Job::TriggerReaper => {
            let status = extract_status(&value);
            Outcome::from_status("repair.trigger_reaper".to_owned(), status.as_str(), value)
        },
        Job::RunPlaybook => Outcome::ok("repair.run_playbook".to_owned(), value),
        Job::Provision(action) => Outcome::ok(
            "provision.".to_owned().concat(action.as_str()),
            value,
        ),
    }
}

/// The outcome of a server that was shut down cleanly.
pub fn served() -> (outcome: Outcome)
    ensures
        outcome.reports(
            "mcp.serve"@,
            Severity::Clear,
            JsonModel::Object(seq![("shutdown"@, JsonModel::Text("clean"@))]),
        ),
{
    let mut members: Vec<(String, Json)> = Vec::new();
    add_member(&mut members, "shutdown", Json::text("clean"));
    let value = Json::object(members);
    assert(value@->Object_0 =~= seq![("shutdown"@, JsonModel::Text("clean"@))]);
    Outcome::ok("mcp.serve".to_owned(), value)
}

/// The log level for a count of `-v` flags.
pub open spec fn log_level_of(verbose: u8) -> Seq<char> {
    if verbose == 0 {
        "WARN"@
    } else if verbose == 1 {
        "INFO"@
    } else {
        "DEBUG"@
    }
}

/// The log level for a count of `-v` flags, where the environment sets none.
pub fn default_log_level(verbose: u8) -> (level: &'static str)
    ensures
        level@ == log_level_of(verbose),
{
    if verbose == 0 {
        "WARN"
    } else if verbose == 1 {
        "INFO"
    } else {
        "DEBUG"
    }
}

/// The value that a pair sets, where it is a pair for the given key.
pub open spec fn value_for(pair: Seq<char>, key: Seq<char>) -> Option<Seq<char>> {
    if pair.len() > key.len() && pair.take(key.len() as int) == key && pair[key.len() as int]
        == '=' {
        Some(pair.skip(key.len() as int + 1))
    } else {
        None
    }
}

/// The value of a key after a list of pairs, where later pairs win over earlier ones.
pub open spec fn effective(set: Seq<Seq<char>>, key: Seq<char>) -> Option<Seq<char>>
    decreases set.len(),
{
    if set.len() == 0 {
        None
    } else {
        match value_for(set.last(), key) {
            Some(value) => Some(value),
            None => effective(set.drop_last(), key),
        }
    }
}

/// A pair sets its own key.
proof fn lemma_own_key(key: Seq<char>, value: Seq<char>)
    ensures
        value_for(text::pair(key, value), key) == Some(value),
{
    reveal_strlit("=");
    let pair = text::pair(key, value);
    assert(pair.take(key.len() as int) =~= key);
    assert(pair.skip(key.len() as int + 1) =~= value);
}

/// A pair sets no key that its own key differs from at some place.
proof fn lemma_other_key(own: Seq<char>, value: Seq<char>, key: Seq<char>, at: int)
    requires
        0 <= at < own.len(),
        at < key.len(),
        own[at] != key[at],
    ensures
        value_for(text::pair(own, value), key) is None,
{
    let pair = text::pair(own, value);
    if pair.len() > key.len() && pair.take(key.len() as int) == key {
        assert(pair.take(key.len() as int)[at] == own[at]);
    }
}

proof fn lemma_effective_concat(first: Seq<Seq<char>>, second: Seq<Seq<char>>, key: Seq<char>)
    ensures
        effective(first + second, key) == (match effective(second, key) {
            Some(value) => Some(value),
            None => effective(first, key),
        }),
    decreases second.len(),
{
    if second.len() == 0 {
        assert(first + second =~= first);
    } else {
        assert((first + second).last() == second.last());
        assert((first + second).drop_last() =~= first + second.drop_last());
        lemma_effective_concat(first, second.drop_last(), key);
    }
}

/// A key that the caller of `provision` sets takes the value that the caller gives, whatever
/// the defaults are; a key that the caller leaves alone keeps its default.
pub proof fn law_caller_pairs_win(options: ProvisionOptions, key: Seq<char>)
    ensures
        effective(set_view(options.set@), key) matches Some(value) ==> effective(
            provision_set(options),
            key,
        ) == Some(value),
        effective(set_view(options.set@), key) is None ==> effective(provision_set(options), key)
            == effective(provision_defaults(options), key),
{
    lemma_effective_concat(provision_defaults(options), set_view(options.set@), key);
}

/// The DSN is the value of its key, and no other pair sets that key.
proof fn lemma_dsn(first: Seq<Seq<char>>, pg_dsn: Option<String>)
    ensures
        pg_dsn matches Some(dsn) ==> effective(first + dsn_set(pg_dsn), "pg_dsn"@) == Some(dsn@),
        pg_dsn is None ==> effective(first + dsn_set(pg_dsn), "pg_dsn"@) == effective(
            first,
            "pg_dsn"@,
        ),
{
    lemma_effective_concat(first, dsn_set(pg_dsn), "pg_dsn"@);
    if let Some(dsn) = pg_dsn {
        lemma_own_key("pg_dsn"@, dsn@);
    }
    reveal_with_fuel(effective, 2);
}

/// The pair for the DSN sets no key that does not begin as `pg_dsn` does.
proof fn lemma_dsn_sets_nothing_else(
    first: Seq<Seq<char>>,
    pg_dsn: Option<String>,
    key: Seq<char>,
)
    requires
        key.len() >= 2,
        key[0] != 'p' || key[1] != 'g',
    ensures
        effective(first + dsn_set(pg_dsn), key) == effective(first, key),
{
    reveal_strlit("pg_dsn");
    lemma_effective_concat(first, dsn_set(pg_dsn), key);
    if let Some(dsn) = pg_dsn {
        lemma_other_key("pg_dsn"@, dsn@, key, if key[0] != 'p' { 0int } else { 1int });
    }
    reveal_with_fuel(effective, 2);
}

/// A detection run is told its action and every setting that bears on it: server, thresholds,
/// row limit, and the DSN where there is one.
pub proof fn law_detect_forwards_the_configuration(config: Config)
    ensures
        effective(detect_set(config), "action"@) == Some("detect"@),
        effective(detect_set(config), "noetl_server_url"@) == Some(config.noetl_url@),
        effective(detect_set(config), "stale_seconds"@) == Some(config.stale_seconds@),
        effective(detect_set(config), "pending_retry_seconds"@) == Some(
            config.pending_retry_seconds@,
        ),
        effective(detect_set(config), "max_rows"@) == Some(
            text::decimal(config.max_rows as nat),
        ),
        effective(detect_set(config), "pg_dsn"@) == json::text_view(config.pg_dsn),
{
    reveal_strlit("action");
    reveal_strlit("noetl_server_url");
    reveal_strlit("stale_seconds");
    reveal_strlit("pending_retry_seconds");
    reveal_strlit("max_rows");
    reveal_strlit("pg_dsn");
    let rows = text::decimal(config.max_rows as nat);
    let fixed = seq![
        text::pair("action"@, "detect"@),
        text::pair("noetl_server_url"@, config.noetl_url@),
        text::pair("stale_seconds"@, config.stale_seconds@),
        text::pair("pending_retry_seconds"@, config.pending_retry_seconds@),
        text::pair("max_rows"@, rows),
    ];
    lemma_dsn(fixed, config.pg_dsn);
    lemma_dsn_sets_nothing_else(fixed, config.pg_dsn, "action"@);
    lemma_dsn_sets_nothing_else(fixed, config.pg_dsn, "noetl_server_url"@);
    lemma_dsn_sets_nothing_else(fixed, config.pg_dsn, "stale_seconds"@);
    lemma_dsn_sets_nothing_else(fixed, config.pg_dsn, "pending_retry_seconds"@);
    lemma_dsn_sets_nothing_else(fixed, config.pg_dsn, "max_rows"@);
    lemma_own_key("action"@, "detect"@);
    lemma_own_key("noetl_server_url"@, config.noetl_url@);
    lemma_own_key("stale_seconds"@, config.stale_seconds@);
    lemma_own_key("pending_retry_seconds"@, config.pending_retry_seconds@);
    lemma_own_key("max_rows"@, rows);
    lemma_other_key("noetl_server_url"@, config.noetl_url@, "action"@, 0);
    lemma_other_key("stale_seconds"@, config.stale_seconds@, "action"@, 0);
    lemma_other_key("pending_retry_seconds"@, config.pending_retry_seconds@, "action"@, 0);
    lemma_other_key("max_rows"@, rows, "action"@, 0);
    lemma_other_key("stale_seconds"@, config.stale_seconds@, "noetl_server_url"@, 0);
    lemma_other_key(
        "pending_retry_seconds"@,
        config.pending_retry_seconds@,
        "noetl_server_url"@,
        0,
    );
    lemma_other_key("max_rows"@, rows, "noetl_server_url"@, 0);
    lemma_other_key("pending_retry_seconds"@, config.pending_retry_seconds@, "stale_seconds"@, 0);
    lemma_other_key("max_rows"@, rows, "stale_seconds"@, 0);
    lemma_other_key("max_rows"@, rows, "pending_retry_seconds"@, 0);
    lemma_other_key("action"@, "detect"@, "pg_dsn"@, 0);
    lemma_other_key("noetl_server_url"@, config.noetl_url@, "pg_dsn"@, 0);
    lemma_other_key("stale_seconds"@, config.stale_seconds@, "pg_dsn"@, 0);
    lemma_other_key("pending_retry_seconds"@, config.pending_retry_seconds@, "pg_dsn"@, 1);
    lemma_other_key("max_rows"@, rows, "pg_dsn"@, 0);
    reveal_with_fuel(effective, 6);
}

/// A reachability run is told its action, the server, and the DSN where there is one.
pub proof fn law_reachability_forwards_the_configuration(config: Config)
    ensures
        effective(reachability_set(config), "action"@) == Some("probe"@),
        effective(reachability_set(config), "noetl_server_url"@) == Some(config.noetl_url@),
        effective(reachability_set(config), "pg_dsn"@) == json::text_view(config.pg_dsn),
{
    reveal_strlit("action");
    reveal_strlit("noetl_server_url");
    reveal_strlit("pg_dsn");
    let fixed = seq![
        text::pair("action"@, "probe"@),
        text::pair("noetl_server_url"@, config.noetl_url@),
    ];
    lemma_dsn(fixed, config.pg_dsn);
    lemma_dsn_sets_nothing_else(fixed, config.pg_dsn, "action"@);
    lemma_dsn_sets_nothing_else(fixed, config.pg_dsn, "noetl_server_url"@);
    lemma_own_key("action"@, "probe"@);
    lemma_own_key("noetl_server_url"@, config.noetl_url@);
    lemma_other_key("noetl_server_url"@, config.noetl_url@, "action"@, 0);
    lemma_other_key("action"@, "probe"@, "pg_dsn"@, 0);
    lemma_other_key("noetl_server_url"@, config.noetl_url@, "pg_dsn"@, 0);
    reveal_with_fuel(effective, 3);
}

/// A run that triggers the reaper is told its action and the server, and never the DSN.
pub proof fn law_trigger_reaper_forwards_the_configuration(config: Config)
    ensures
        effective(trigger_reaper_set(config), "action"@) == Some("trigger"@),
        effective(trigger_reaper_set(config), "noetl_server_url"@) == Some(config.noetl_url@),
        effective(trigger_reaper_set(config), "pg_dsn"@) is None,
{
    reveal_strlit("action");
    reveal_strlit("noetl_server_url");
    reveal_strlit("pg_dsn");
    lemma_own_key("action"@, "trigger"@);
    lemma_own_key("noetl_server_url"@, config.noetl_url@);
    lemma_other_key("noetl_server_url"@, config.noetl_url@, "action"@, 0);
    lemma_other_key("action"@, "trigger"@, "pg_dsn"@, 0);
    lemma_other_key("noetl_server_url"@, config.noetl_url@, "pg_dsn"@, 0);
    reveal_with_fuel(effective, 3);
}

/// A provisioning run is told its verb, the namespace, the context and, where one is given,
/// the image, unless the caller sets the key otherwise.
pub proof fn law_provision_forwards_its_options(options: ProvisionOptions)
    ensures
        effective(provision_defaults(options), "action"@) == Some(verb(options.action)),
        effective(provision_defaults(options), "namespace"@) == Some(options.namespace@),
        effective(provision_defaults(options), "expected_kube_context"@) == Some(
            options.expected_kube_context@,
        ),
        effective(provision_defaults(options), "image"@) == json::text_view(options.image),
{
    reveal_strlit("action");
    reveal_strlit("namespace");
    reveal_strlit("expected_kube_context");
    reveal_strlit("image");
    let action = verb(options.action);
    let namespace = options.namespace@;
    let context = options.expected_kube_context@;
    let fixed = seq![
        text::pair("action"@, action),
        text::pair("namespace"@, namespace),
        text::pair("expected_kube_context"@, context),
    ];
    lemma_effective_concat(fixed, image_set(options.image), "action"@);
    lemma_effective_concat(fixed, image_set(options.image), "namespace"@);
    lemma_effective_concat(fixed, image_set(options.image), "expected_kube_context"@);
    lemma_effective_concat(fixed, image_set(options.image), "image"@);
    if let Some(image) = options.image {
        lemma_own_key("image"@, image@);
        lemma_other_key("image"@, image@, "action"@, 0);
        lemma_other_key("image"@, image@, "namespace"@, 0);
        lemma_other_key("image"@, image@, "expected_kube_context"@, 0);
    }
    lemma_own_key("action"@, action);
    lemma_own_key("namespace"@, namespace);
    lemma_own_key("expected_kube_context"@, context);
    lemma_other_key("namespace"@, namespace, "action"@, 0);
    lemma_other_key("expected_kube_context"@, context, "action"@, 0);
    lemma_other_key("expected_kube_context"@, context, "namespace"@, 0);
    lemma_other_key("action"@, action, "image"@, 0);
    lemma_other_key("namespace"@, namespace, "image"@, 0);
    lemma_other_key("expected_kube_context"@, context, "image"@, 0);
    reveal_with_fuel(effective, 4);
}

/// Different actions have different verbs.
pub proof fn law_verbs_differ(left: ProvisionAction, right: ProvisionAction)
    ensures
        verb(left) == verb(right) ==> left == right,
{
    reveal_strlit("deploy");
    reveal_strlit("redeploy");
    reveal_strlit("status");
    reveal_strlit("destroy");
    reveal_strlit("logs");
    reveal_strlit("help");
    assert("deploy"@.len() == 6 && "redeploy"@.len() == 8 && "status"@.len() == 6);
    assert("destroy"@.len() == 7 && "logs"@.len() == 4 && "help"@.len() == 4);
    assert("deploy"@[0] == 'd' && "status"@[0] == 's');
    assert("logs"@[0] == 'l' && "help"@[0] == 'h');
}

/// The listing of playbooks is the one subcommand that is finished without the `noetl` binary.
pub proof fn law_only_the_listing_needs_no_binary(command: Command, config: Config, plan: Plan)
    requires
        plan_for(command, config, plan),
    ensures
        plan is Finished <==> command is Playbooks,
{
}

/// Where no `noetl` binary is on the search path and none was asked for, every subcommand but
/// the listing of playbooks fails, with a message that says so; the listing is unaffected.
pub proof fn law_missing_binary_is_said(
    command: Command,
    config: Config,
    plan: Plan,
    cause: String,
    step: Result<Step, String>,
)
    requires
        plan_for(command, config, plan),
        step_for(plan, runner::binary_choice(None, Err(cause)), step),
    ensures
        command is Playbooks ==> step == Ok::<Step, String>(Step::Finished(plan->Finished_0)),
        command !is Playbooks ==> (step matches Err(text) && {
            let start = "locating noetl CLI binary: "@;
            let what = "noetl CLI not found"@;
            &&& start.is_prefix_of(text@)
            &&& what.is_prefix_of(text@.skip(start.len() as int))
        }),
{
    if command !is Playbooks {
        reveal_strlit("noetl CLI not found");
        reveal_strlit(
            "noetl CLI not found on PATH; install noetl 2.13.0+ (https://github.com/noetl/cli) or pass --noetl-bin /path/to/noetl",
        );
        let text = step->Err_0@;
        let start = "locating noetl CLI binary: "@;
        let rest = text.skip(start.len() as int);
        assert(rest =~= runner::error_text(DoctorError::CliNotFound { cause }));
        assert("noetl CLI not found"@ =~= rest.subrange(0, "noetl CLI not found"@.len() as int));
    }
}

/// Detection, reachability and the reaper trigger are never all clear where the run printed
/// no report: monitoring sees an anomaly.
pub proof fn law_missing_report_is_an_anomaly(job: Job, stdout: Seq<char>, stderr: Seq<char>)
    requires
        job is Detect || job is Reachability || job is TriggerReaper,
    ensures
        job_severity(job, runner::missing_report(stdout, stderr)) == Severity::Anomaly,
        report::exit_code_of(job_severity(job, runner::missing_report(stdout, stderr))) == 2,
{
    reveal_strlit("note");
    reveal_strlit("raw_stderr");
    reveal_strlit("raw_stdout");
    reveal_strlit("status");
    reveal_strlit("ok");
    reveal_strlit("unknown");
    reveal_strlit("noop");
    reveal_strlit("error");
    assert("note"@.len() == 4 && "raw_stderr"@.len() == 10 && "raw_stdout"@.len() == 10);
    assert("status"@.len() == 6 && "ok"@.len() == 2 && "unknown"@.len() == 7);
    assert("noop"@.len() == 4 && "error"@.len() == 5);
    reveal_with_fuel(json::member, 4);
    let members = runner::missing_report(stdout, stderr)->Object_0;
    assert(members.drop_first()[0] == members[1]);
    assert(members.drop_first().drop_first()[0] == members[2]);
    assert(json::member(members, "status"@) is None);
    assert(json::member(members, "ok"@) is None);
}

/// The report that a playbook prints last on stdout decides the exit code: its status for
/// detection and the reaper trigger, its flag for reachability.
pub proof fn law_printed_report_decides_the_exit_code(
    stdout: Seq<char>,
    stderr: Seq<char>,
    before: Seq<u8>,
    report: Seq<u8>,
    after: Seq<u8>,
)
    requires
        encode_utf8(stdout) == before + report + after,
        extract::accepted(report, 0, report.len() - 1),
        forall|i: int| 0 <= i < after.len() ==> !extract::is_closing(#[trigger] after[i]),
    ensures
        ({
            let value = runner::reported_value(stdout, stderr);
            let by_status = report::exit_code_of(
                match json::json_text_member(report, "status"@) {
                    Some(status) => report::severity_of_status(status),
                    None => Severity::Anomaly,
                },
            );
            let by_flag = if json::json_flag_member(report, "ok"@) == Some(true) {
                0u8
            } else {
                2u8
            };
            &&& report::exit_code_of(job_severity(Job::Detect, value)) == by_status
            &&& report::exit_code_of(job_severity(Job::TriggerReaper, value)) == by_status
            &&& report::exit_code_of(job_severity(Job::Reachability, value)) == by_flag
        }),
{
    runner::law_printed_report_is_reported(stdout, stderr, before, report, after);
    law_silence_is_an_anomaly(Job::Detect, JsonModel::Document(report));
}

/// A value without a status is never all clear for the jobs that go by the status, and one
/// without a true flag never for reachability.
pub proof fn law_silence_is_an_anomaly(job: Job, value: JsonModel)
    ensures
        (job is Detect || job is TriggerReaper) && json::status_of(value) is None
            ==> job_severity(job, value) == Severity::Anomaly,
        job is Reachability && json::ok_of(value) != Some(true) ==> job_severity(job, value)
            == Severity::Anomaly,
{
    reveal_strlit("ok");
    reveal_strlit("unknown");
    reveal_strlit("noop");
    reveal_strlit("error");
    assert("unknown"@.len() == 7 && "ok"@.len() == 2 && "noop"@.len() == 4);
    assert("error"@.len() == 5);
}

} // verus!
