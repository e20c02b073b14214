//! Laws on the subcommands: what each of them runs, and what comes of it.

use vstd::prelude::*;
#[allow(unused_imports)]
use vstd::utf8::*;

use std::path::PathBuf;

use crate::commands;
#[allow(unused_imports)]
use crate::commands::{
    conclude, default_log_level, detect, dispatch, extract_status, list_playbooks, provision,
    reachability, run_playbook, served, start, trigger_reaper, Command, Config, Job, McpAction,
    Plan, PlaybookJob, PlaybookSource, ProvisionAction, ProvisionOptions, RepairAction, Step,
};
use crate::embed;
#[allow(unused_imports)]
use crate::embed::Bundled;
use crate::json;
#[allow(unused_imports)]
use crate::json::{Json, JsonModel};
use crate::laws::reports;
use crate::laws::runs;
use crate::laws::texts;
#[allow(unused_imports)]
use crate::report::{exit_code_for_outcome, Outcome, Severity};
use crate::runner;
#[allow(unused_imports)]
use crate::runner::{
    interpret_text, Argument, DoctorError, PlaybookRunOptions, PlaybookRunner,
};
use crate::text;

verus! {

/// A pair is the key, an equals sign and the value.
proof fn lemma_pair(key: Seq<char>, value: Seq<char>, start: Seq<char>)
    requires
        start =~= key.push('='),
    ensures
        text::pair(key, value) == start + value,
{
    reveal_strlit("=");
    assert(text::pair(key, value) =~= start + value);
}

/// The last pairs of a set are the DSN, where there is one, and nothing else.
pub open spec fn ends_with_dsn(set: Seq<String>, from: int, dsn: Option<String>) -> bool {
    match dsn {
        Some(d) => set.len() == from + 1 && set[from]@ == "pg_dsn="@ + d@,
        None => set.len() == from,
    }
}

/// The pairs tell a detection run its action, the server, both thresholds, the row limit, and
/// the DSN where there is one.
pub open spec fn sets_detection(set: Seq<String>, config: Config) -> bool {
    &&& ends_with_dsn(set, 5, config.pg_dsn)
    &&& set[0]@ == "action=detect"@
    &&& set[1]@ == "noetl_server_url="@ + config.noetl_url@
    &&& set[2]@ == "stale_seconds="@ + config.stale_seconds@
    &&& set[3]@ == "pending_retry_seconds="@ + config.pending_retry_seconds@
    &&& "max_rows="@.is_prefix_of(set[4]@)
    &&& texts::is_written(set[4]@.skip(9), config.max_rows as int)
}

/// The pairs tell a reachability run its action, the server, and the DSN where there is one.
pub open spec fn sets_reachability(set: Seq<String>, config: Config) -> bool {
    &&& ends_with_dsn(set, 2, config.pg_dsn)
    &&& set[0]@ == "action=probe"@
    &&& set[1]@ == "noetl_server_url="@ + config.noetl_url@
}

/// The pairs tell a run that triggers the reaper its action and the server.
pub open spec fn sets_trigger(set: Seq<String>, config: Config) -> bool {
    &&& set.len() == 2
    &&& set[0]@ == "action=trigger"@
    &&& set[1]@ == "noetl_server_url="@ + config.noetl_url@
}

/// The pairs tell a provisioning run its verb, the namespace, the context, and the image where
/// one is given; behind them stand all pairs of the caller, in their order.
pub open spec fn sets_provisioning(set: Seq<String>, options: ProvisionOptions) -> bool {
    let own: int = if options.image is Some {
        4
    } else {
        3
    };
    &&& set.len() == own + options.set@.len()
    &&& set[0]@ == "action="@ + commands::verb(options.action)
    &&& set[1]@ == "namespace="@ + options.namespace@
    &&& set[2]@ == "expected_kube_context="@ + options.expected_kube_context@
    &&& options.image matches Some(image) ==> set[3]@ == "image="@ + image@
    &&& same_pairs(set.skip(own), options.set@)
}

/// Two lists hold the same pairs in the same order.
pub open spec fn same_pairs(left: Seq<String>, right: Seq<String>) -> bool {
    left.len() == right.len() && forall|i: int|
        0 <= i < left.len() ==> (#[trigger] left[i])@ == right[i]@
}

proof fn lemma_set_view(set: Seq<String>)
    ensures
        commands::set_view(set).len() == set.len(),
        forall|i: int| 0 <= i < set.len() ==> #[trigger] commands::set_view(set)[i] == set[i]@,
{
}

proof fn lemma_dsn_pair(dsn: Seq<char>)
    ensures
        text::pair("pg_dsn"@, dsn) == "pg_dsn="@ + dsn,
{
    reveal_strlit("pg_dsn");
    reveal_strlit("pg_dsn=");
    lemma_pair("pg_dsn"@, dsn, "pg_dsn="@);
}

proof fn lemma_server_pair(url: Seq<char>)
    ensures
        text::pair("noetl_server_url"@, url) == "noetl_server_url="@ + url,
{
    reveal_strlit("noetl_server_url");
    reveal_strlit("noetl_server_url=");
    lemma_pair("noetl_server_url"@, url, "noetl_server_url="@);
}

proof fn lemma_action_pair(verb: Seq<char>)
    ensures
        text::pair("action"@, verb) == "action="@ + verb,
{
    reveal_strlit("action");
    reveal_strlit("action=");
    lemma_pair("action"@, verb, "action="@);
}

/// The pairs of detection, taken apart.
pub proof fn lemma_detection(set: Seq<String>, config: Config)
    requires
        commands::set_view(set) == commands::detect_set(config),
    ensures
        sets_detection(set, config),
{
    let all = commands::set_view(set);
    lemma_set_view(set);
    if let Some(dsn) = config.pg_dsn {
        lemma_dsn_pair(dsn@);
        assert(all[5] == set[5]@);
    }
    lemma_server_pair(config.noetl_url@);
    lemma_action_pair("detect"@);
    reveal_strlit("action=");
    reveal_strlit("detect");
    reveal_strlit("action=detect");
    assert("action="@ + "detect"@ =~= "action=detect"@);
    reveal_strlit("stale_seconds");
    reveal_strlit("stale_seconds=");
    lemma_pair("stale_seconds"@, config.stale_seconds@, "stale_seconds="@);
    reveal_strlit("pending_retry_seconds");
    reveal_strlit("pending_retry_seconds=");
    lemma_pair("pending_retry_seconds"@, config.pending_retry_seconds@, "pending_retry_seconds="@);
    reveal_strlit("max_rows");
    reveal_strlit("max_rows=");
    let rows = text::decimal(config.max_rows as nat);
    lemma_pair("max_rows"@, rows, "max_rows="@);
    texts::law_numbers_read_back(config.max_rows as nat);
    assert(all[0] == set[0]@ && all[1] == set[1]@ && all[2] == set[2]@);
    assert(all[3] == set[3]@ && all[4] == set[4]@);
    assert(set[4]@ == "max_rows="@ + rows);
    assert("max_rows="@.len() == 9);
    assert("max_rows="@ =~= set[4]@.subrange(0, 9));
    assert(set[4]@.skip(9) =~= rows);
}

/// The pairs of reachability, taken apart.
pub proof fn lemma_reachability(set: Seq<String>, config: Config)
    requires
        commands::set_view(set) == commands::reachability_set(config),
    ensures
        sets_reachability(set, config),
{
    let all = commands::set_view(set);
    lemma_set_view(set);
    if let Some(dsn) = config.pg_dsn {
        lemma_dsn_pair(dsn@);
        assert(all[2] == set[2]@);
    }
    lemma_server_pair(config.noetl_url@);
    lemma_action_pair("probe"@);
    reveal_strlit("action=");
    reveal_strlit("probe");
    reveal_strlit("action=probe");
    assert("action="@ + "probe"@ =~= "action=probe"@);
    assert(all[0] == set[0]@ && all[1] == set[1]@);
}

/// The pairs of the reaper trigger, taken apart.
pub proof fn lemma_trigger(set: Seq<String>, config: Config)
    requires
        commands::set_view(set) == commands::trigger_reaper_set(config),
    ensures
        sets_trigger(set, config),
{
    let all = commands::set_view(set);
    lemma_set_view(set);
    lemma_server_pair(config.noetl_url@);
    lemma_action_pair("trigger"@);
    reveal_strlit("action=");
    reveal_strlit("trigger");
    reveal_strlit("action=trigger");
    assert("action="@ + "trigger"@ =~= "action=trigger"@);
    assert(all[0] == set[0]@ && all[1] == set[1]@);
}

proof fn lemma_provisioning(set: Seq<String>, options: ProvisionOptions)
    requires
        commands::set_view(set) == commands::provision_set(options),
    ensures
        sets_provisioning(set, options),
{
    let all = commands::set_view(set);
    let extra = commands::set_view(options.set@);
    let own: int = if options.image is Some {
        4
    } else {
        3
    };
    lemma_set_view(set);
    lemma_set_view(options.set@);
    lemma_action_pair(commands::verb(options.action));
    reveal_strlit("namespace");
    reveal_strlit("namespace=");
    lemma_pair("namespace"@, options.namespace@, "namespace="@);
    reveal_strlit("expected_kube_context");
    reveal_strlit("expected_kube_context=");
    lemma_pair("expected_kube_context"@, options.expected_kube_context@, "expected_kube_context="@);
    if let Some(image) = options.image {
        reveal_strlit("image");
        reveal_strlit("image=");
        lemma_pair("image"@, image@, "image="@);
        assert(all[3] == set[3]@);
    }
    assert(all[0] == set[0]@ && all[1] == set[1]@ && all[2] == set[2]@);
    let rest = set.skip(own);
    assert forall|i: int| 0 <= i < rest.len() implies (#[trigger] rest[i])@
        == options.set@[i]@ by {
        assert(all[own + i] == set[own + i]@);
        assert(extra[i] == options.set@[i]@);
    }
}

/// Detection runs its playbook with every setting that bears on it.
pub proof fn law_detection_is_configured(config: Config, job: PlaybookJob)
    requires
        call_ensures(detect, (&config,), job),
    ensures
        job.job is Detect,
        job.source == PlaybookSource::Bundled(Bundled::DetectStuckExecutions),
        sets_detection(job.set@, config),
{
    lemma_detection(job.set@, config);
}

/// Reachability runs its playbook with every setting that bears on it.
pub proof fn law_reachability_is_configured(config: Config, job: PlaybookJob)
    requires
        call_ensures(reachability, (&config,), job),
    ensures
        job.job is Reachability,
        job.source == PlaybookSource::Bundled(Bundled::ReachabilitySmoke),
        sets_reachability(job.set@, config),
{
    lemma_reachability(job.set@, config);
}

/// The reaper trigger runs its playbook with every setting that bears on it.
pub proof fn law_trigger_is_configured(config: Config, job: PlaybookJob)
    requires
        call_ensures(trigger_reaper, (&config,), job),
    ensures
        job.job is TriggerReaper,
        job.source == PlaybookSource::Bundled(Bundled::TriggerCommandReaper),
        sets_trigger(job.set@, config),
{
    lemma_trigger(job.set@, config);
}

/// A playbook of the caller is run with the pairs of the caller, all of them and no others.
pub proof fn law_any_playbook_takes_the_pairs_of_the_caller(
    playbook: PathBuf,
    set: Vec<String>,
    job: PlaybookJob,
)
    requires
        call_ensures(run_playbook, (playbook, set), job),
    ensures
        job.job is RunPlaybook,
        job.source == PlaybookSource::File(playbook),
        job.set@ == set@,
{
}

/// Provisioning runs its playbook with its options, and with the pairs of the caller last.
pub proof fn law_provisioning_is_configured(options: ProvisionOptions, job: PlaybookJob)
    requires
        call_ensures(provision, (options,), job),
    ensures
        job.job == Job::Provision(options.action),
        job.source == PlaybookSource::Bundled(Bundled::ProvisionDoctorMcp),
        sets_provisioning(job.set@, options),
{
    lemma_provisioning(job.set@, options);
}

/// Detection and reachability, as planned from the command line.
pub proof fn law_checks_are_planned(config: Config, detection: Plan, probe: Plan)
    requires
        call_ensures(dispatch, (Command::Detect, config), detection),
        call_ensures(dispatch, (Command::Reachability, config), probe),
    ensures
        detection matches Plan::Run(job) && job.job is Detect && job.source
            == PlaybookSource::Bundled(Bundled::DetectStuckExecutions) && sets_detection(
            job.set@,
            config,
        ),
        probe matches Plan::Run(job) && job.job is Reachability && job.source
            == PlaybookSource::Bundled(Bundled::ReachabilitySmoke) && sets_reachability(
            job.set@,
            config,
        ),
{
    lemma_detection(detection->Run_0.set@, config);
    lemma_reachability(probe->Run_0.set@, config);
}

/// The reaper trigger, as planned from the command line.
pub proof fn law_trigger_is_planned(config: Config, plan: Plan)
    requires
        call_ensures(dispatch, (Command::Repair(RepairAction::TriggerReaper), config), plan),
    ensures
        plan matches Plan::Run(job) && job.job is TriggerReaper && job.source
            == PlaybookSource::Bundled(Bundled::TriggerCommandReaper) && sets_trigger(
            job.set@,
            config,
        ),
{
    lemma_trigger(plan->Run_0.set@, config);
}

/// A playbook of the caller, as planned from the command line: with exactly the pairs of the
/// caller, in their order, whatever the configuration is.
pub proof fn law_any_playbook_is_planned(
    playbook: PathBuf,
    set: Vec<String>,
    config: Config,
    plan: Plan,
)
    requires
        call_ensures(
            dispatch,
            (Command::Repair(RepairAction::RunPlaybook { playbook, set }), config),
            plan,
        ),
    ensures
        plan matches Plan::Run(job) && job.job is RunPlaybook && job.source
            == PlaybookSource::File(playbook) && job.set@ == set@,
{
}

/// Provisioning, as planned from the command line.
pub proof fn law_provisioning_is_planned(options: ProvisionOptions, config: Config, plan: Plan)
    requires
        call_ensures(dispatch, (Command::Provision(options), config), plan),
    ensures
        plan matches Plan::Run(job) && job.job == Job::Provision(options.action) && job.source
            == PlaybookSource::Bundled(Bundled::ProvisionDoctorMcp) && sets_provisioning(
            job.set@,
            options,
        ),
{
    lemma_provisioning(plan->Run_0.set@, options);
}

/// A server, as planned from the command line: at the address given, with the whole
/// configuration.
pub proof fn law_server_is_planned(host: String, port: u16, config: Config, plan: Plan)
    requires
        call_ensures(dispatch, (Command::Mcp(McpAction::Serve { host, port }), config), plan),
    ensures
        plan == (Plan::Serve { host, port, config }),
{
}

/// The listing names the five bundled playbooks, each under the name of its file.
pub open spec fn lists_the_playbooks(outcome: Outcome) -> bool {
    let listed = outcome.data@;
    &&& reports::is_in_utc(outcome.generated_at@)
    &&& outcome.action@ == "playbooks"@
    &&& outcome.severity is Clear
    &&& reports::has_members(listed, 5)
    &&& reports::holds(
        listed,
        "detect_stuck_executions"@,
        JsonModel::Text("doctor/detect_stuck_executions"@),
    )
    &&& reports::holds(
        listed,
        "inspect_stale_commands"@,
        JsonModel::Text("doctor/inspect_stale_commands"@),
    )
    &&& reports::holds(
        listed,
        "reachability_smoke"@,
        JsonModel::Text("doctor/reachability_smoke"@),
    )
    &&& reports::holds(
        listed,
        "trigger_command_reaper"@,
        JsonModel::Text("doctor/trigger_command_reaper"@),
    )
    &&& reports::holds(
        listed,
        "provision_doctor_mcp"@,
        JsonModel::Text("doctor/provision_doctor_mcp"@),
    )
}

proof fn lemma_listing(outcome: Outcome)
    requires
        outcome.reports("playbooks"@, Severity::Clear, commands::playbooks_model()),
    ensures
        lists_the_playbooks(outcome),
{
    reports::lemma_in_utc(outcome.generated_at@);
    reveal_strlit("detect_stuck_executions");
    reveal_strlit("inspect_stale_commands");
    reveal_strlit("reachability_smoke");
    reveal_strlit("trigger_command_reaper");
    reveal_strlit("provision_doctor_mcp");
    assert("detect_stuck_executions"@.len() == 23 && "inspect_stale_commands"@.len() == 22);
    assert("reachability_smoke"@.len() == 18 && "trigger_command_reaper"@.len() == 22);
    assert("provision_doctor_mcp"@.len() == 20);
    assert("inspect_stale_commands"@[0] == 'i' && "trigger_command_reaper"@[0] == 't');
    let members = commands::playbooks_model()->Object_0;
    reports::lemma_holds(members, 0);
    reports::lemma_holds(members, 1);
    reports::lemma_holds(members, 2);
    reports::lemma_holds(members, 3);
    reports::lemma_holds(members, 4);
}

/// The listing is complete, asked for directly or from the command line, and needs no run.
pub proof fn law_listing_is_complete(config: Config, listed: Outcome, plan: Plan)
    requires
        call_ensures(list_playbooks, (), listed),
        call_ensures(dispatch, (Command::Playbooks, config), plan),
    ensures
        lists_the_playbooks(listed),
        plan matches Plan::Finished(outcome) && lists_the_playbooks(outcome),
{
    lemma_listing(listed);
    lemma_listing(plan->Finished_0);
}

/// A playbook goes by its catalog name, and its text is its own.
pub proof fn law_playbooks_are_their_own(
    playbook: Bundled,
    name: &'static str,
    yaml: &'static str,
)
    requires
        call_ensures(Bundled::name, (playbook,), name),
        call_ensures(Bundled::yaml, (playbook,), yaml),
    ensures
        playbook is DetectStuckExecutions ==> name@ == "doctor/detect_stuck_executions"@ && yaml@
            == embed::DETECT_STUCK_EXECUTIONS@,
        playbook is InspectStaleCommands ==> name@ == "doctor/inspect_stale_commands"@ && yaml@
            == embed::INSPECT_STALE_COMMANDS@,
        playbook is ReachabilitySmoke ==> name@ == "doctor/reachability_smoke"@ && yaml@
            == embed::REACHABILITY_SMOKE@,
        playbook is TriggerCommandReaper ==> name@ == "doctor/trigger_command_reaper"@ && yaml@
            == embed::TRIGGER_COMMAND_REAPER@,
        playbook is ProvisionDoctorMcp ==> name@ == "doctor/provision_doctor_mcp"@ && yaml@
            == embed::PROVISION_DOCTOR_MCP@,
{
}

/// Whatever a job sets reaches the `noetl` CLI: the playbook where it stands, the local
/// runtime, and every pair behind a `--set`, in order.
pub proof fn law_job_reaches_the_cli(
    job: PlaybookJob,
    path: PathBuf,
    options: PlaybookRunOptions,
    runner: PlaybookRunner,
    arguments: Vec<Argument>,
)
    requires
        call_ensures(PlaybookJob::into_options, (job, path), options),
        call_ensures(PlaybookRunner::arguments, (&runner, options), arguments),
    ensures
        arguments@.len() == 4 + 2 * job.set@.len(),
        runs::is_text(arguments@[0], "run"@),
        runs::is_file(arguments@[1], path),
        runs::is_text(arguments@[2], "--runtime"@),
        runs::is_text(arguments@[3], "local"@),
        forall|i: int|
            0 <= i < job.set@.len() ==> #[trigger] runs::sets(arguments@, i, job.set@[i]@),
{
    runs::law_every_pair_is_passed_on(runner, options, arguments);
    assert forall|i: int| 0 <= i < job.set@.len() implies #[trigger] runs::sets(
        arguments@,
        i,
        job.set@[i]@,
    ) by {
        assert(runs::sets(arguments@, i, options.set@[i]@));
    }
}

/// From the command line to the `noetl` CLI: the DSN of a detection is its last argument.
pub proof fn law_dsn_of_detection_reaches_the_cli(
    config: Config,
    plan: Plan,
    path: PathBuf,
    options: PlaybookRunOptions,
    runner: PlaybookRunner,
    arguments: Vec<Argument>,
)
    requires
        config.pg_dsn is Some,
        call_ensures(dispatch, (Command::Detect, config), plan),
        plan matches Plan::Run(job) && call_ensures(
            PlaybookJob::into_options,
            (job, path),
            options,
        ),
        call_ensures(PlaybookRunner::arguments, (&runner, options), arguments),
    ensures
        arguments@.len() == 16,
        runs::is_text(arguments@[14], "--set"@),
        runs::is_text(arguments@[15], "pg_dsn="@ + config.pg_dsn->0@),
{
    let job = plan->Run_0;
    lemma_detection(job.set@, config);
    law_job_reaches_the_cli(job, path, options, runner, arguments);
    assert(runs::sets(arguments@, 5, job.set@[5]@));
}

/// From the command line to the `noetl` CLI: the pairs of the caller of `run-playbook` are all
/// the pairs there are.
pub proof fn law_pairs_of_the_caller_reach_the_cli(
    playbook: PathBuf,
    set: Vec<String>,
    config: Config,
    plan: Plan,
    options: PlaybookRunOptions,
    runner: PlaybookRunner,
    arguments: Vec<Argument>,
)
    requires
        call_ensures(
            dispatch,
            (Command::Repair(RepairAction::RunPlaybook { playbook, set }), config),
            plan,
        ),
        plan matches Plan::Run(job) && call_ensures(
            PlaybookJob::into_options,
            (job, playbook),
            options,
        ),
        call_ensures(PlaybookRunner::arguments, (&runner, options), arguments),
    ensures
        arguments@.len() == 4 + 2 * set@.len(),
        runs::is_file(arguments@[1], playbook),
        forall|i: int| 0 <= i < set@.len() ==> #[trigger] runs::sets(arguments@, i, set@[i]@),
{
    law_job_reaches_the_cli(plan->Run_0, playbook, options, runner, arguments);
}

/// A finished plan needs no binary. Any other goes ahead with the binary that there is, as
/// planned; without one it fails, with a message that says so.
pub proof fn law_plans_start_as_planned(
    plan: Plan,
    binary: Result<PathBuf, DoctorError>,
    step: Result<Step, String>,
)
    requires
        call_ensures(start, (plan, binary), step),
    ensures
        plan matches Plan::Finished(outcome) ==> step == Ok::<Step, String>(
            Step::Finished(outcome),
        ),
        plan !is Finished ==> (step is Ok <==> binary is Ok),
        plan matches Plan::Run(job) ==> (step matches Ok(next) ==> next is Run && next->Run_job
            == job && next->Run_runner@ == binary->Ok_0),
        plan matches Plan::Serve { host, port, config } ==> (step matches Ok(next) ==> next
            is Serve && next->host == host && next->port == port && next->config == config
            && next->Serve_runner@ == binary->Ok_0),
        step matches Err(text) ==> (exists|message: Seq<char>| #[trigger]
            says(binary->Err_0, message) && text@ == "locating noetl CLI binary: "@ + message),
{
    if let Err(_) = step {
        assert(says(binary->Err_0, runner::error_text(binary->Err_0)));
    }
}

/// `message` is what `DoctorError::message` returns for the error.
pub open spec fn says(error: DoctorError, message: Seq<char>) -> bool {
    forall|m: String| #[trigger]
        call_ensures(DoctorError::message, (&error,), m) ==> m@ == message
}

/// The status of a value: the string that is read under `status`, or `unknown`.
pub proof fn law_status_or_unknown(value: Json, read: Option<String>, status: String)
    requires
        call_ensures(Json::status, (&value,), read),
        call_ensures(extract_status, (&value,), status),
    ensures
        read matches Some(r) ==> status@ == r@,
        read is None ==> status@ == "unknown"@,
{
}

/// An outcome tells which job it is of, and passes on the value that the job reported.
pub proof fn law_outcome_tells_its_job(job: Job, value: Json, outcome: Outcome)
    requires
        call_ensures(conclude, (job, value), outcome),
    ensures
        outcome.data@ == value@,
        job is Detect ==> outcome.action@ == "detect"@,
        job is Reachability ==> outcome.action@ == "reachability"@,
        job is TriggerReaper ==> outcome.action@ == "repair.trigger_reaper"@,
        job is RunPlaybook ==> outcome.action@ == "repair.run_playbook"@,
        job matches Job::Provision(action) ==> outcome.action@ == "provision."@ + commands::verb(
            action,
        ),
        reports::is_in_utc(outcome.generated_at@),
{
    reports::lemma_in_utc(outcome.generated_at@);
}

/// Detection and the reaper trigger go by the status that the playbook reported, and are an
/// anomaly where it reported none.
pub proof fn law_status_decides(
    job: Job,
    value: Json,
    read: Option<String>,
    outcome: Outcome,
    code: u8,
)
    requires
        job is Detect || job is TriggerReaper,
        call_ensures(Json::status, (&value,), read),
        call_ensures(conclude, (job, value), outcome),
        call_ensures(exit_code_for_outcome, (&outcome,), code),
    ensures
        outcome.severity is Clear <==> (read matches Some(s) && s@ == "ok"@),
        outcome.severity is Repaired <==> (read matches Some(s) && s@ == "noop"@),
        outcome.severity is Error <==> (read matches Some(s) && s@ == "error"@),
        code == 0 <==> (read matches Some(s) && (s@ == "ok"@ || s@ == "noop"@)),
        code == 3 <==> (read matches Some(s) && s@ == "error"@),
        code == 0 || code == 2 || code == 3,
        read is None ==> code == 2,
{
    reports::lemma_statuses_differ();
}

/// Reachability goes by the flag that the playbook reported: all clear where it is true, an
/// anomaly where it is false or missing.
pub proof fn law_flag_decides(value: Json, read: Option<bool>, outcome: Outcome, code: u8)
    requires
        call_ensures(Json::ok, (&value,), read),
        call_ensures(conclude, (Job::Reachability, value), outcome),
        call_ensures(exit_code_for_outcome, (&outcome,), code),
    ensures
        outcome.severity is Clear <==> read == Some(true),
        outcome.severity is Anomaly <==> read != Some(true),
        code == 0 <==> read == Some(true),
        code == 2 <==> read != Some(true),
{
}

/// Provisioning, and a playbook of the caller, that ran to its end are all clear and exit with
/// 0, whatever they reported, a status among it, and where they reported nothing.
pub proof fn law_finished_run_is_all_clear(job: Job, value: Json, outcome: Outcome, code: u8)
    requires
        job is Provision || job is RunPlaybook,
        call_ensures(conclude, (job, value), outcome),
        call_ensures(exit_code_for_outcome, (&outcome,), code),
    ensures
        outcome.severity is Clear,
        code == 0,
{
}

/// From the output of a successful run to the exit code: the value that ends last on stdout
/// decides, its status for detection and the reaper trigger, its flag for reachability.
pub proof fn law_last_value_decides_the_exit_code(
    job: Job,
    code_of_run: Option<i32>,
    stdout: &str,
    stderr: &str,
    start: int,
    end: int,
    result: Result<Json, DoctorError>,
    outcome: Outcome,
    code: u8,
)
    requires
        texts::is_last_value(encode_utf8(stdout@), start, end),
        call_ensures(interpret_text, (true, code_of_run, stdout, stderr), result),
        result matches Ok(value) && call_ensures(conclude, (job, value), outcome),
        call_ensures(exit_code_for_outcome, (&outcome,), code),
    ensures
        ({
            let report = encode_utf8(stdout@).subrange(start, end + 1);
            let status = json::json_text_member(report, "status"@);
            let flag = json::json_flag_member(report, "ok"@);
            &&& outcome.data@ == JsonModel::Document(report)
            &&& job is Detect || job is TriggerReaper ==> {
                &&& code == 0 <==> status == Some("ok"@) || status == Some("noop"@)
                &&& code == 3 <==> status == Some("error"@)
                &&& code == 0 || code == 2 || code == 3
            }
            &&& job is Reachability ==> (code == 0 <==> flag == Some(true)) && (code == 2
                <==> flag != Some(true))
            &&& job is Provision || job is RunPlaybook ==> code == 0
        }),
{
    runs::law_successful_run_reports_the_last_value(code_of_run, stdout, stderr, result);
    reports::lemma_statuses_differ();
}

/// From the output of a successful run to the exit code: where no value stands on either
/// output, detection, reachability and the reaper trigger are an anomaly, and the others are
/// all clear.
pub proof fn law_no_value_is_an_anomaly(
    job: Job,
    code_of_run: Option<i32>,
    stdout: &str,
    stderr: &str,
    result: Result<Json, DoctorError>,
    outcome: Outcome,
    code: u8,
)
    requires
        texts::holds_no_value(encode_utf8(stdout@)),
        texts::holds_no_value(encode_utf8(stderr@)),
        call_ensures(interpret_text, (true, code_of_run, stdout, stderr), result),
        result matches Ok(value) && call_ensures(conclude, (job, value), outcome),
        call_ensures(exit_code_for_outcome, (&outcome,), code),
    ensures
        job is Detect || job is Reachability || job is TriggerReaper ==> code == 2,
        job is Provision || job is RunPlaybook ==> code == 0,
{
    texts::law_last_value_is_the_report(encode_utf8(stdout@));
    texts::law_last_value_is_the_report(encode_utf8(stderr@));
    if job is Detect || job is Reachability || job is TriggerReaper {
        commands::law_missing_report_is_an_anomaly(job, stdout@, stderr@);
    }
}

/// A server that was shut down cleanly is all clear and says so.
pub proof fn law_clean_shutdown(outcome: Outcome)
    requires
        call_ensures(served, (), outcome),
    ensures
        outcome.action@ == "mcp.serve"@,
        outcome.severity is Clear,
        reports::has_members(outcome.data@, 1),
        reports::holds(outcome.data@, "shutdown"@, JsonModel::Text("clean"@)),
        reports::is_in_utc(outcome.generated_at@),
{
    reports::lemma_in_utc(outcome.generated_at@);
    reports::lemma_holds(outcome.data@->Object_0, 0);
}

/// The verbs are the names of the actions, in lower case.
pub proof fn law_verbs_are_the_actions(action: ProvisionAction, word: &'static str)
    requires
        call_ensures(ProvisionAction::as_str, (action,), word),
    ensures
        word@ == commands::verb(action),
        action is Deploy ==> word@ == "deploy"@,
        action is Redeploy ==> word@ == "redeploy"@,
        action is Status ==> word@ == "status"@,
        action is Destroy ==> word@ == "destroy"@,
        action is Logs ==> word@ == "logs"@,
        action is Help ==> word@ == "help"@,
{
}

/// Without `-v` warnings are logged, with one `-v` information too, with more everything.
pub proof fn law_more_flags_log_more(verbose: u8, level: &'static str)
    requires
        call_ensures(default_log_level, (verbose,), level),
    ensures
        level@ == "WARN"@ <==> verbose == 0,
        level@ == "INFO"@ <==> verbose == 1,
        level@ == "DEBUG"@ <==> verbose >= 2,
{
    reveal_strlit("WARN");
    reveal_strlit("INFO");
    reveal_strlit("DEBUG");
    assert("WARN"@[0] == 'W' && "INFO"@[0] == 'I' && "DEBUG"@[0] == 'D');
}

} // verus!
