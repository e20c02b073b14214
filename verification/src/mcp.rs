//! The MCP surface: the subcommands as tools over HTTP.
//!
//! An invocation takes no arguments; what a tool needs is configured when the server starts. The
//! answer is `{"result": Outcome}`, with the outcome in the shape in which the subcommand
//! prints it.

use vstd::prelude::*;

use crate::commands;
use crate::commands::{detect, reachability, trigger_reaper, Config, PlaybookJob};
#[allow(unused_imports)]
use crate::commands::{Command, Job, McpAction, Plan, PlaybookSource, RepairAction};
#[allow(unused_imports)]
use crate::embed::Bundled;
use crate::json;
use crate::json::{add_item, add_member, Json};
#[allow(unused_imports)]
use crate::json::JsonModel;
use crate::report;
use crate::report::Outcome;
use crate::text;
use crate::text::append_decimal;

verus! {

/// A tool that the server offers.
#[derive(Debug, Clone, Copy, PartialEq, Eq, Structural)]
pub enum Tool {
    Detect,
    Reachability,
    RepairTriggerReaper,
}

/// The name of a tool.
pub open spec fn tool_name(tool: Tool) -> Seq<char> {
    match tool {
        Tool::Detect => "detect"@,
        Tool::Reachability => "reachability"@,
        Tool::RepairTriggerReaper => "repair_trigger_reaper"@,
    }
}

/// What a tool says of itself.
pub open spec fn tool_description(tool: Tool) -> Seq<char> {
    match tool {
        Tool::Detect => "Run the stuck-execution + stale-command detection playbook."@,
        Tool::Reachability => "Probe NoETL server, Postgres and runtime pool reachability."@,
        Tool::RepairTriggerReaper =>
            "Ask the NoETL server to perform a single command-reaper sweep (404-tolerant)."@,
    }
}

/// The job that a tool runs.
pub open spec fn tool_job(tool: Tool) -> Job {
    match tool {
        Tool::Detect => Job::Detect,
        Tool::Reachability => Job::Reachability,
        Tool::RepairTriggerReaper => Job::TriggerReaper,
    }
}

/// The playbook that a tool runs.
pub open spec fn tool_playbook(tool: Tool) -> Bundled {
    match tool {
        Tool::Detect => Bundled::DetectStuckExecutions,
        Tool::Reachability => Bundled::ReachabilitySmoke,
        Tool::RepairTriggerReaper => Bundled::TriggerCommandReaper,
    }
}

/// The pairs that a tool passes to its playbook: those of the subcommand that it stands for.
pub open spec fn tool_set(tool: Tool, config: Config) -> Seq<Seq<char>> {
    match tool {
        Tool::Detect => commands::detect_set(config),
        Tool::Reachability => commands::reachability_set(config),
        Tool::RepairTriggerReaper => commands::trigger_reaper_set(config),
    }
}

/// The tools that the server offers, in the order in which it lists them.
pub open spec fn all_tools() -> Seq<Tool> {
    seq![Tool::Detect, Tool::Reachability, Tool::RepairTriggerReaper]
}

impl Tool {
    /// Every tool, in the order in which the manifest lists them.
    pub fn all() -> (tools: Vec<Tool>)
        ensures
            tools@ == all_tools(),
            forall|tool: Tool| #[trigger] tools@.contains(tool),
    {
        let tools = vec![Tool::Detect, Tool::Reachability, Tool::RepairTriggerReaper];
        proof {
            assert(tools@ =~= all_tools());
            assert forall|tool: Tool| #[trigger] tools@.contains(tool) by {
                match tool {
                    Tool::Detect => assert(tools@[0] == tool),
                    Tool::Reachability => assert(tools@[1] == tool),
                    Tool::RepairTriggerReaper => assert(tools@[2] == tool),
                }
            }
        }
        tools
    }

    /// The name of the tool.
    pub fn name(self) -> (name: &'static str)
        ensures
            name@ == tool_name(self),
    {
        match self {
            Tool::Detect => "detect",
            Tool::Reachability => "reachability",
            Tool::RepairTriggerReaper => "repair_trigger_reaper",
        }
    }

    /// What the tool says of itself.
    pub fn description(self) -> (description: &'static str)
        ensures
            description@ == tool_description(self),
    {
        match self {
            Tool::Detect => "Run the stuck-execution + stale-command detection playbook.",
            Tool::Reachability => "Probe NoETL server, Postgres and runtime pool reachability.",
            Tool::RepairTriggerReaper =>
                "Ask the NoETL server to perform a single command-reaper sweep (404-tolerant).",
        }
    }

    /// The path to which an invocation is posted.
    pub fn invoke_path(self) -> (path: String)
        ensures
            path@ == invoke_path_of(tool_name(self)),
    {
        "/tools/".to_owned().concat(self.name()).concat("/invoke")
    }

    /// The job that an invocation runs, with what was configured when the server started.
    pub fn invoke(self, config: &Config) -> (job: PlaybookJob)
        ensures
            job.job == tool_job(self),
            job.source == PlaybookSource::Bundled(tool_playbook(self)),
            commands::set_view(job.set@) == tool_set(self, *config),
    {
        match self {
            Tool::Detect => detect(config),
            Tool::Reachability => reachability(config),
            Tool::RepairTriggerReaper => trigger_reaper(config),
        }
    }
}

/// The path to which an invocation of the tool of the given name is posted.
pub open spec fn invoke_path_of(name: Seq<char>) -> Seq<char> {
    "/tools/"@ + name + "/invoke"@
}

/// The schema of arguments that no tool takes.
pub open spec fn no_arguments_model() -> JsonModel {
    JsonModel::Object(
        seq![
            ("additionalProperties"@, JsonModel::Bool(false)),
            ("properties"@, JsonModel::Object(seq![])),
            ("type"@, JsonModel::Text("object"@)),
        ],
    )
}

/// The entry of a tool in the manifest.
pub open spec fn tool_model(tool: Tool) -> JsonModel {
    JsonModel::Object(
        seq![
            ("description"@, JsonModel::Text(tool_description(tool))),
            ("input_schema"@, no_arguments_model()),
            ("name"@, JsonModel::Text(tool_name(tool))),
        ],
    )
}

/// The manifest: an entry for each tool.
pub open spec fn tools_model() -> JsonModel {
    JsonModel::Object(
        seq![
            (
                "tools"@,
                JsonModel::Array(all_tools().map_values(|tool: Tool| tool_model(tool))),
            ),
        ],
    )
}

fn no_arguments() -> (schema: Json)
    ensures
        schema@ == no_arguments_model(),
{
    let nothing: Vec<(String, Json)> = Vec::new();
    assert(json::members_view(nothing@) =~= seq![]);
    let mut members: Vec<(String, Json)> = Vec::new();
    add_member(&mut members, "additionalProperties", Json::Bool(false));
    add_member(&mut members, "properties", Json::object(nothing));
    add_member(&mut members, "type", Json::text("object"));
    let schema = Json::object(members);
    assert(schema@->Object_0 =~= no_arguments_model()->Object_0);
    schema
}

fn tool_entry(tool: Tool) -> (entry: Json)
    ensures
        entry@ == tool_model(tool),
{
    let mut members: Vec<(String, Json)> = Vec::new();
    add_member(&mut members, "description", Json::text(tool.description()));
    add_member(&mut members, "input_schema", no_arguments());
    add_member(&mut members, "name", Json::text(tool.name()));
    let entry = Json::object(members);
    assert(entry@->Object_0 =~= tool_model(tool)->Object_0);
    entry
}

/// An object with one member.
fn single(name: &str, value: Json) -> (json: Json)
    ensures
        json@ == JsonModel::Object(seq![(name@, value@)]),
{
    let mut members: Vec<(String, Json)> = Vec::new();
    add_member(&mut members, name, value);
    let json = Json::object(members);
    assert(json@->Object_0 =~= seq![(name@, value@)]);
    json
}

/// The answer to a health probe.
pub fn healthz() -> (body: Json)
    ensures
        body@ == JsonModel::Object(seq![("status"@, JsonModel::Text("ok"@))]),
{
    single("status", Json::text("ok"))
}

/// The tool manifest.
pub fn list_tools() -> (body: Json)
    ensures
        body@ == tools_model(),
{
    let tools = Tool::all();
    let ghost models = all_tools().map_values(|tool: Tool| tool_model(tool));
    let mut entries: Vec<Json> = Vec::new();
    let mut i: usize = 0;
    assert(json::items_view(entries@) =~= models.take(0));
    while i < tools.len()
        invariant
            i <= tools@.len(),
            tools@ == all_tools(),
            models == all_tools().map_values(|tool: Tool| tool_model(tool)),
            json::items_view(entries@) == models.take(i as int),
        decreases tools@.len() - i,
    {
        add_item(&mut entries, tool_entry(tools[i]));
        i = i + 1;
        assert(json::items_view(entries@) =~= models.take(i as int));
    }
    assert(models.take(i as int) =~= models);
    single("tools", Json::array(entries))
}

/// What the answer to an invocation holds.
pub open spec fn result_model(outcome: Outcome) -> JsonModel {
    JsonModel::Object(
        seq![
            (
                "result"@,
                report::outcome_model(
                    outcome.action@,
                    outcome.severity,
                    outcome.generated_at@,
                    outcome.data@,
                ),
            ),
        ],
    )
}

/// The answer to an invocation that came to an outcome.
pub fn result_body(outcome: Outcome) -> (body: Json)
    ensures
        body@ == result_model(outcome),
{
    single("result", outcome.into_json())
}

/// The answer to an invocation that failed; it goes with the HTTP status 500.
pub fn error_body(message: String) -> (body: Json)
    ensures
        body@ == JsonModel::Object(seq![("error"@, JsonModel::Text(message@))]),
{
    single("error", Json::Text(message))
}

/// The address to listen on, as it is written.
pub fn bind_address(host: &str, port: u16) -> (address: String)
    ensures
        address@ == host@ + ":"@ + text::decimal(port as nat),
{
    let mut address = host.to_owned().concat(":");
    append_decimal(&mut address, port as u64);
    address
}

/// The subcommand that a tool stands for.
pub open spec fn command_of(tool: Tool) -> Command {
    match tool {
        Tool::Detect => Command::Detect,
        Tool::Reachability => Command::Reachability,
        Tool::RepairTriggerReaper => Command::Repair(RepairAction::TriggerReaper),
    }
}

/// A tool runs the same job on the same playbook with the same settings as the subcommand that
/// it stands for, so the same reported value leads both to the same action, severity and data.
pub proof fn law_tools_do_as_the_subcommands(tool: Tool, config: Config, plan: Plan)
    requires
        commands::plan_for(command_of(tool), config, plan),
    ensures
        plan matches Plan::Run(job) && job.job == tool_job(tool) && job.source
            == PlaybookSource::Bundled(tool_playbook(tool)) && commands::set_view(job.set@)
            == tool_set(tool, config),
{
}

/// A server hands its tools the configuration that it was started with: what a tool of it
/// runs is what the subcommand would run under the same flags.
pub proof fn law_server_keeps_the_configuration(
    tool: Tool,
    host: String,
    port: u16,
    config: Config,
    serving: Plan,
    plan: Plan,
)
    requires
        commands::plan_for(Command::Mcp(McpAction::Serve { host, port }), config, serving),
        commands::plan_for(command_of(tool), config, plan),
    ensures
        serving matches Plan::Serve { host: h, port: p, config: kept } && h == host && p == port
            && (plan matches Plan::Run(job) && commands::set_view(job.set@) == tool_set(tool, kept)),
{
}

/// The answer to an invocation holds under `result` just what the subcommand prints.
pub proof fn law_result_is_what_is_printed(outcome: Outcome)
    ensures
        json::member(result_model(outcome)->Object_0, "result"@) == Some(
            report::outcome_model(
                outcome.action@,
                outcome.severity,
                outcome.generated_at@,
                outcome.data@,
            ),
        ),
{
}

/// Different tools have different names and are invoked at different paths.
pub proof fn law_tools_are_told_apart(left: Tool, right: Tool)
    ensures
        tool_name(left) == tool_name(right) ==> left == right,
        invoke_path_of(tool_name(left)) == invoke_path_of(tool_name(right)) ==> left == right,
{
    reveal_strlit("detect");
    reveal_strlit("reachability");
    reveal_strlit("repair_trigger_reaper");
    assert("detect"@.len() == 6 && "reachability"@.len() == 12);
    assert("repair_trigger_reaper"@.len() == 21);
    assert(invoke_path_of(tool_name(left)).len() == "/tools/"@.len() + tool_name(left).len()
        + "/invoke"@.len());
    assert(invoke_path_of(tool_name(right)).len() == "/tools/"@.len() + tool_name(right).len()
        + "/invoke"@.len());
}

/// Every tool has its entry in the manifest, under the name at whose path it is invoked.
pub proof fn law_manifest_names_every_tool(tool: Tool)
    ensures
        json::member(tools_model()->Object_0, "tools"@) matches Some(
            JsonModel::Array(entries),
        ) && entries.contains(tool_model(tool)),
        json::member(tool_model(tool)->Object_0, "name"@) == Some(
            JsonModel::Text(tool_name(tool)),
        ),
{
    reveal_strlit("description");
    reveal_strlit("input_schema");
    reveal_strlit("name");
    assert("description"@.len() == 11 && "input_schema"@.len() == 12 && "name"@.len() == 4);
    reveal_with_fuel(json::member, 4);
    let members = tool_model(tool)->Object_0;
    assert(members.drop_first()[0] == members[1]);
    assert(members.drop_first().drop_first()[0] == members[2]);
    let entries = all_tools().map_values(|tool: Tool| tool_model(tool));
    assert(entries[0] == tool_model(Tool::Detect));
    assert(entries[1] == tool_model(Tool::Reachability));
    assert(entries[2] == tool_model(Tool::RepairTriggerReaper));
}

} // verus!
