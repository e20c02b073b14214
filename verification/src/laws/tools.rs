//! Laws on the MCP surface: the tools, and the bodies that the server sends.

use vstd::prelude::*;

#[allow(unused_imports)]
use crate::commands::{
    dispatch, Command, Config, Job, McpAction, Plan, PlaybookJob, PlaybookSource, RepairAction,
};
use crate::commands;
#[allow(unused_imports)]
use crate::embed::Bundled;
#[allow(unused_imports)]
use crate::json::{Json, JsonModel};
use crate::laws::reports;
use crate::laws::subcommands;
use crate::laws::texts;
use crate::mcp;
#[allow(unused_imports)]
use crate::mcp::{bind_address, error_body, healthz, list_tools, result_body, Tool};
#[allow(unused_imports)]
use crate::report::Outcome;

verus! {

/// The server offers three tools, every tool there is and each once.
pub proof fn law_all_tools_are_offered(tools: Vec<Tool>, tool: Tool)
    requires
        call_ensures(Tool::all, (), tools),
    ensures
        tools@.contains(tool),
        tools@.no_duplicates(),
        tools@.len() == 3,
{
}

/// A tool goes by its name and says what it does.
pub proof fn law_tools_go_by_their_names(
    tool: Tool,
    name: &'static str,
    description: &'static str,
)
    requires
        call_ensures(Tool::name, (tool,), name),
        call_ensures(Tool::description, (tool,), description),
    ensures
        tool is Detect ==> name@ == "detect"@ && description@
            == "Run the stuck-execution + stale-command detection playbook."@,
        tool is Reachability ==> name@ == "reachability"@ && description@
            == "Probe NoETL server, Postgres and runtime pool reachability."@,
        tool is RepairTriggerReaper ==> name@ == "repair_trigger_reaper"@ && description@
            == "Ask the NoETL server to perform a single command-reaper sweep (404-tolerant)."@,
{
}

/// A tool is invoked at a path that holds its name, and no two at the same.
pub proof fn law_tools_have_their_paths(
    tool: Tool,
    name: &'static str,
    path: String,
    other: Tool,
    other_path: String,
)
    requires
        call_ensures(Tool::name, (tool,), name),
        call_ensures(Tool::invoke_path, (tool,), path),
        call_ensures(Tool::invoke_path, (other,), other_path),
    ensures
        path@ == "/tools/"@ + name@ + "/invoke"@,
        path@ == other_path@ ==> tool == other,
{
    mcp::law_tools_are_told_apart(tool, other);
}

/// A tool runs the playbook of its subcommand with every setting of the server that bears on
/// it.
pub proof fn law_tools_are_configured(tool: Tool, config: Config, job: PlaybookJob)
    requires
        call_ensures(Tool::invoke, (tool, &config), job),
    ensures
        tool is Detect ==> job.job is Detect && job.source == PlaybookSource::Bundled(
            Bundled::DetectStuckExecutions,
        ) && subcommands::sets_detection(job.set@, config),
        tool is Reachability ==> job.job is Reachability && job.source == PlaybookSource::Bundled(
            Bundled::ReachabilitySmoke,
        ) && subcommands::sets_reachability(job.set@, config),
        tool is RepairTriggerReaper ==> job.job is TriggerReaper && job.source
            == PlaybookSource::Bundled(Bundled::TriggerCommandReaper) && subcommands::sets_trigger(
            job.set@,
            config,
        ),
{
    match tool {
        Tool::Detect => subcommands::lemma_detection(job.set@, config),
        Tool::Reachability => subcommands::lemma_reachability(job.set@, config),
        Tool::RepairTriggerReaper => subcommands::lemma_trigger(job.set@, config),
    }
}

/// The subcommand that a tool stands for.
pub open spec fn stands_for(tool: Tool, command: Command) -> bool {
    match tool {
        Tool::Detect => command is Detect,
        Tool::Reachability => command is Reachability,
        Tool::RepairTriggerReaper => command == Command::Repair(RepairAction::TriggerReaper),
    }
}

/// A tool of a server asks for the same run as its subcommand does under the flags that the
/// server was started with.
pub proof fn law_invocation_is_the_subcommand(
    tool: Tool,
    command: Command,
    host: String,
    port: u16,
    config: Config,
    serving: Plan,
    invoked: PlaybookJob,
    plan: Plan,
)
    requires
        stands_for(tool, command),
        call_ensures(dispatch, (Command::Mcp(McpAction::Serve { host, port }), config), serving),
        serving matches Plan::Serve { config: kept, .. } && call_ensures(
            Tool::invoke,
            (tool, &kept),
            invoked,
        ),
        call_ensures(dispatch, (command, config), plan),
    ensures
        plan matches Plan::Run(job) && job.job == invoked.job && job.source == invoked.source
            && subcommands::same_pairs(job.set@, invoked.set@),
{
    let planned = plan->Run_0.set@;
    let called = invoked.set@;
    assert(commands::set_view(planned) == commands::set_view(called));
    assert(commands::set_view(planned).len() == planned.len());
    assert(commands::set_view(called).len() == called.len());
    assert forall|i: int| 0 <= i < planned.len() implies (#[trigger] planned[i])@
        == called[i]@ by {
        assert(commands::set_view(planned)[i] == planned[i]@);
        assert(commands::set_view(called)[i] == called[i]@);
    }
}

/// An entry of the manifest: a name, a description, and a schema that takes no arguments.
pub open spec fn is_entry(entry: JsonModel, name: Seq<char>, description: Seq<char>) -> bool {
    &&& reports::has_members(entry, 3)
    &&& reports::holds(entry, "name"@, JsonModel::Text(name))
    &&& reports::holds(entry, "description"@, JsonModel::Text(description))
    &&& exists|schema: JsonModel| #[trigger]
        takes_nothing(schema) && reports::holds(entry, "input_schema"@, schema)
}

/// A schema of an object without properties.
pub open spec fn takes_nothing(schema: JsonModel) -> bool {
    &&& reports::has_members(schema, 3)
    &&& reports::holds(schema, "type"@, JsonModel::Text("object"@))
    &&& reports::holds(schema, "additionalProperties"@, JsonModel::Bool(false))
    &&& exists|properties: JsonModel| #[trigger]
        reports::has_members(properties, 0) && reports::holds(schema, "properties"@, properties)
}

proof fn lemma_takes_nothing()
    ensures
        takes_nothing(mcp::no_arguments_model()),
{
    reveal_strlit("type");
    reveal_strlit("additionalProperties");
    reveal_strlit("properties");
    assert("type"@.len() == 4 && "additionalProperties"@.len() == 20);
    assert("properties"@.len() == 10);
    let members = mcp::no_arguments_model()->Object_0;
    reports::lemma_holds(members, 0);
    reports::lemma_holds(members, 1);
    reports::lemma_holds(members, 2);
    assert(reports::has_members(members[1].1, 0));
}

proof fn lemma_entry(tool: Tool)
    ensures
        is_entry(mcp::tool_model(tool), mcp::tool_name(tool), mcp::tool_description(tool)),
{
    reveal_strlit("description");
    reveal_strlit("input_schema");
    reveal_strlit("name");
    assert("description"@.len() == 11 && "input_schema"@.len() == 12 && "name"@.len() == 4);
    let members = mcp::tool_model(tool)->Object_0;
    reports::lemma_holds(members, 0);
    reports::lemma_holds(members, 1);
    reports::lemma_holds(members, 2);
    lemma_takes_nothing();
    assert(takes_nothing(members[1].1));
}

/// The manifest lists the tools that the server offers, all of them and in their order, each
/// with its name, its description and a schema that takes no arguments.
pub proof fn law_manifest_lists_the_tools(
    tools: Vec<Tool>,
    at: int,
    name: &'static str,
    description: &'static str,
    manifest: Json,
)
    requires
        call_ensures(Tool::all, (), tools),
        0 <= at < tools@.len(),
        call_ensures(Tool::name, (tools@[at],), name),
        call_ensures(Tool::description, (tools@[at],), description),
        call_ensures(list_tools, (), manifest),
    ensures
        reports::has_members(manifest@, 1),
        exists|entries: Seq<JsonModel>|
            entries.len() == tools@.len() && is_entry(
                #[trigger] entries[at],
                name@,
                description@,
            ) && reports::holds(manifest@, "tools"@, JsonModel::Array(entries)),
{
    let members = manifest@->Object_0;
    reports::lemma_holds(members, 0);
    let entries = members[0].1->Array_0;
    lemma_entry(tools@[at]);
    assert(entries[at] == mcp::tool_model(tools@[at]));
}

/// A health probe is answered with the status `ok`.
pub proof fn law_health_is_ok(body: Json)
    requires
        call_ensures(healthz, (), body),
    ensures
        reports::has_members(body@, 1),
        reports::holds(body@, "status"@, JsonModel::Text("ok"@)),
{
    reports::lemma_holds(body@->Object_0, 0);
}

/// An invocation is answered with what the subcommand would print, under `result`.
pub proof fn law_answer_is_what_is_printed(outcome: Outcome, printed: Json, body: Json)
    requires
        call_ensures(Outcome::into_json, (outcome,), printed),
        call_ensures(result_body, (outcome,), body),
    ensures
        reports::has_members(body@, 1),
        reports::holds(body@, "result"@, printed@),
{
    reports::lemma_holds(body@->Object_0, 0);
}

/// A failure is answered with its message, under `error`.
pub proof fn law_failures_are_answered(message: String, body: Json)
    requires
        call_ensures(error_body, (message,), body),
    ensures
        reports::has_members(body@, 1),
        reports::holds(body@, "error"@, JsonModel::Text(message@)),
{
    reports::lemma_holds(body@->Object_0, 0);
}

/// The address is the host, a colon and the port in decimal.
pub proof fn law_address_is_host_and_port(host: &str, port: u16, address: String)
    requires
        call_ensures(bind_address, (host, port), address),
    ensures
        address@.len() > host@.len() + 1,
        address@.take(host@.len() as int) == host@,
        address@[host@.len() as int] == ':',
        texts::is_written(address@.skip(host@.len() as int + 1), port as int),
{
    reveal_strlit(":");
    texts::law_numbers_read_back(port as nat);
    let digits = crate::text::decimal(port as nat);
    assert(address@.take(host@.len() as int) =~= host@);
    assert(address@.skip(host@.len() as int + 1) =~= digits);
}

} // verus!
