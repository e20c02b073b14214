//! Running playbooks with the `noetl` CLI.
//!
//! The doctor executes no playbook itself: the `noetl` CLI is the one execution engine. This
//! module settles which binary to use, with which arguments to call it, and what its exit
//! status and output mean.

use vstd::prelude::*;
#[allow(unused_imports)]
use vstd::utf8::*;

use std::path::PathBuf;

use crate::extract;
use crate::extract::extract_last_json_object;
use crate::json::{add_member, Document, Json};
#[allow(unused_imports)]
use crate::json::JsonModel;
use crate::text;
use crate::text::{append_signed, lossy_text, tail};

verus! {

/// `std::path::PathBuf`: a path is handed on and never looked into, so nothing is claimed of
/// it.
#[verifier::external_type_specification]
#[verifier::external_body]
pub struct ExPathBuf(std::path::PathBuf);

/// The `noetl` binary that the caller asked for.
#[derive(Debug)]
pub struct BinaryOverride {
    /// Where the binary is.
    pub path: PathBuf,
    /// The path as shown to people.
    pub shown: String,
    /// Whether something exists there.
    pub exists: bool,
}

/// Why the doctor could not complete a run.
#[derive(Debug)]
pub enum DoctorError {
    /// The binary that the caller asked for does not exist.
    BinaryMissing { path: String },
    /// No `noetl` binary is on the search path.
    CliNotFound { cause: String },
    /// The `noetl` binary could not be started.
    SpawnFailed { playbook: String, binary: String, cause: String },
    /// The `noetl` binary exited with a failure.
    RunFailed { code: Option<i32>, stderr: String, stdout: String },
}

/// An exit code as shown in an error message.
pub open spec fn code_text(code: Option<i32>) -> Seq<char> {
    match code {
        Some(c) => "Some("@ + text::signed_decimal(c as int) + ")"@,
        None => "None"@,
    }
}

/// The message for an error; a cause follows what it is the cause of.
pub open spec fn error_text(error: DoctorError) -> Seq<char> {
    match error {
        DoctorError::BinaryMissing { path } => "--noetl-bin path does not exist: "@ + path@,
        DoctorError::CliNotFound { cause } =>
            "noetl CLI not found on PATH; install noetl 2.13.0+ (https://github.com/noetl/cli) or pass --noetl-bin /path/to/noetl"@
            + ": "@ + cause@,
        DoctorError::SpawnFailed { playbook, binary, cause } => "failed to spawn `noetl run "@
            + playbook@ + "` (binary at "@ + binary@ + ")"@ + ": "@ + cause@,
        DoctorError::RunFailed { code, stderr, stdout } => "noetl run failed (exit "@ + code_text(
            code,
        ) + ")\nstderr: "@ + stderr@ + "\nstdout: "@ + stdout@,
    }
}

impl DoctorError {
    /// The message for people.
    pub fn message(&self) -> (message: String)
        ensures
            message@ == error_text(*self),
    {
        match self {
            DoctorError::BinaryMissing { path } => "--noetl-bin path does not exist: ".to_owned()
                .concat(path.as_str()),
            DoctorError::CliNotFound { cause } => {
                let text = "noetl CLI not found on PATH; install noetl 2.13.0+ (https://github.com/noetl/cli) or pass --noetl-bin /path/to/noetl".to_owned();
                text.concat(": ").concat(cause.as_str())
            },
            DoctorError::SpawnFailed { playbook, binary, cause } => {
                let text = "failed to spawn `noetl run ".to_owned().concat(playbook.as_str());
                let text = text.concat("` (binary at ").concat(binary.as_str()).concat(")");
                text.concat(": ").concat(cause.as_str())
            },
            DoctorError::RunFailed { code, stderr, stdout } => {
                let mut text = "noetl run failed (exit ".to_owned();
                match code {
                    Some(c) => {
                        let mut shown = "Some(".to_owned();
                        append_signed(&mut shown, *c);
                        text.append(shown.concat(")").as_str());
                    },
                    None => {
                        text.append("None");
                    },
                }
                let text = text.concat(")\nstderr: ").concat(stderr.as_str());
                text.concat("\nstdout: ").concat(stdout.as_str())
            },
        }
    }
}

/// Which `noetl` binary to run: the one that the caller asked for, where it exists; where the
/// caller asked for none, the one that the search path holds.
pub open spec fn binary_choice(
    override_path: Option<BinaryOverride>,
    search: Result<PathBuf, String>,
) -> Result<PathBuf, DoctorError> {
    match override_path {
        Some(wanted) => if wanted.exists {
            Ok(wanted.path)
        } else {
            Err(DoctorError::BinaryMissing { path: wanted.shown })
        },
        None => match search {
            Ok(found) => Ok(found),
            Err(cause) => Err(DoctorError::CliNotFound { cause }),
        },
    }
}

/// Settles which `noetl` binary to run. `search` is what a search of the path for `noetl`
/// gave, and counts only where the caller asked for no binary.
pub fn resolve_noetl_binary(
    override_path: Option<BinaryOverride>,
    search: Result<PathBuf, String>,
) -> (binary: Result<PathBuf, DoctorError>)
    ensures
        binary == binary_choice(override_path, search),
{
    match override_path {
        Some(wanted) => if wanted.exists {
            Ok(wanted.path)
        } else {
            Err(DoctorError::BinaryMissing { path: wanted.shown })
        },
        None => match search {
            Ok(found) => Ok(found),
            Err(cause) => Err(DoctorError::CliNotFound { cause }),
        },
    }
}

/// The message where the `noetl` binary could not be settled.
pub open spec fn binary_error_text(error: DoctorError) -> Seq<char> {
    "locating noetl CLI binary: "@ + error_text(error)
}

/// The message for people where the `noetl` binary could not be settled: what was being done,
/// and what went wrong.
pub fn binary_error(error: &DoctorError) -> (text: String)
    ensures
        text@ == binary_error_text(*error),
{
    "locating noetl CLI binary: ".to_owned().concat(error.message().as_str())
}

/// One run of a playbook.
#[derive(Debug)]
pub struct PlaybookRunOptions {
    pub playbook: PathBuf,
    pub set: Vec<String>,
    pub runtime: &'static str,
}

/// An argument of the `noetl` command.
#[derive(Debug)]
pub enum Argument {
    Text(String),
    File(PathBuf),
}

/// What an argument is.
pub enum ArgumentModel {
    Text(Seq<char>),
    File(PathBuf),
}

impl View for Argument {
    type V = ArgumentModel;

    open spec fn view(&self) -> ArgumentModel {
        match *self {
            Argument::Text(text) => ArgumentModel::Text(text@),
            Argument::File(path) => ArgumentModel::File(path),
        }
    }
}

/// The arguments as mathematical values.
pub open spec fn arguments_view(arguments: Seq<Argument>) -> Seq<ArgumentModel> {
    arguments.map_values(|a: Argument| a@)
}

/// `--set` before each of the pairs, in their order.
pub open spec fn set_arguments(set: Seq<String>) -> Seq<ArgumentModel> {
    Seq::new(
        2 * set.len(),
        |i: int|
            if i % 2 == 0 {
                ArgumentModel::Text("--set"@)
            } else {
                ArgumentModel::Text(set[i / 2]@)
            },
    )
}

/// The arguments of `noetl run <playbook> --runtime <runtime> --set key=value ...`.
pub open spec fn run_arguments(playbook: PathBuf, runtime: Seq<char>, set: Seq<String>) -> Seq<
    ArgumentModel,
> {
    seq![
        ArgumentModel::Text("run"@),
        ArgumentModel::File(playbook),
        ArgumentModel::Text("--runtime"@),
        ArgumentModel::Text(runtime),
    ] + set_arguments(set)
}

/// Runs playbooks with one `noetl` binary.
#[derive(Debug)]
pub struct PlaybookRunner {
    noetl_bin: PathBuf,
}

impl View for PlaybookRunner {
    type V = PathBuf;

    closed spec fn view(&self) -> PathBuf {
        self.noetl_bin
    }
}

impl PlaybookRunner {
    /// A runner that uses the given binary.
    pub fn new(noetl_bin: PathBuf) -> (runner: PlaybookRunner)
        ensures
            runner@ == noetl_bin,
    {
        PlaybookRunner { noetl_bin }
    }

    /// The binary that the runner uses.
    pub fn binary(&self) -> (binary: &PathBuf)
        ensures
            *binary == self@,
    {
        &self.noetl_bin
    }

    /// The arguments with which to call the binary for a run.
    pub fn arguments(&self, opts: PlaybookRunOptions) -> (arguments: Vec<Argument>)
        ensures
            arguments_view(arguments@) == run_arguments(opts.playbook, opts.runtime@, opts.set@),
    {
        let mut arguments: Vec<Argument> = Vec::new();
        arguments.push(Argument::Text("run".to_owned()));
        arguments.push(Argument::File(opts.playbook));
        arguments.push(Argument::Text("--runtime".to_owned()));
        arguments.push(Argument::Text(opts.runtime.to_owned()));
        let ghost head = arguments_view(arguments@);
        let set = opts.set;
        let mut i: usize = 0;
        assert(arguments_view(arguments@) =~= head + set_arguments(set@.take(0)));
        while i < set.len()
            invariant
                i <= set@.len(),
                arguments_view(arguments@) == head + set_arguments(set@.take(i as int)),
            decreases set@.len() - i,
        {
            let ghost before = arguments_view(arguments@);
            arguments.push(Argument::Text("--set".to_owned()));
            arguments.push(Argument::Text(set[i].clone()));
            i = i + 1;
            proof {
                assert(arguments_view(arguments@) =~= before.push(
                    ArgumentModel::Text("--set"@),
                ).push(ArgumentModel::Text(set@[i - 1]@)));
                assert(set_arguments(set@.take(i as int)) =~= set_arguments(
                    set@.take(i - 1),
                ).push(ArgumentModel::Text("--set"@)).push(ArgumentModel::Text(set@[i - 1]@)));
            }
        }
        assert(set@.take(i as int) =~= set@);
        assert(head =~= run_arguments(opts.playbook, opts.runtime@, set@).take(4));
        assert(arguments_view(arguments@) =~= run_arguments(
            opts.playbook,
            opts.runtime@,
            set@,
        ));
        arguments
    }
}

/// What a finished `noetl` process left behind.
#[derive(Debug)]
pub struct ProcessOutput {
    pub success: bool,
    pub code: Option<i32>,
    pub stdout: Vec<u8>,
    pub stderr: Vec<u8>,
}

/// What stands for a report where a run succeeded and printed none: the end of its output.
pub open spec fn missing_report(stdout: Seq<char>, stderr: Seq<char>) -> JsonModel {
    JsonModel::Object(
        seq![
            (
                "note"@,
                JsonModel::Text(
                    "noetl run succeeded but no JSON object was found on stdout"@,
                ),
            ),
            ("raw_stderr"@, JsonModel::Text(text::tail_of(stderr, 1000))),
            ("raw_stdout"@, JsonModel::Text(text::tail_of(stdout, 4000))),
        ],
    )
}

/// The value that a successful run reported, given the reports on its two outputs.
pub open spec fn value_of_reports(
    on_stdout: Option<Seq<u8>>,
    on_stderr: Option<Seq<u8>>,
    stdout: Seq<char>,
    stderr: Seq<char>,
) -> JsonModel {
    match on_stdout {
        Some(report) => JsonModel::Document(report),
        None => match on_stderr {
            Some(report) => JsonModel::Document(report),
            None => missing_report(stdout, stderr),
        },
    }
}

/// The value that a successful run reported: the report on stdout, else the one on stderr,
/// else the end of the output.
pub open spec fn reported_value(stdout: Seq<char>, stderr: Seq<char>) -> JsonModel {
    value_of_reports(
        extract::report_of(encode_utf8(stdout)),
        extract::report_of(encode_utf8(stderr)),
        stdout,
        stderr,
    )
}

/// What a finished run means: the reported value where it succeeded, else an error that holds
/// the exit code and the end of each output.
pub open spec fn run_means(
    success: bool,
    code: Option<i32>,
    stdout: Seq<char>,
    stderr: Seq<char>,
    result: Result<Json, DoctorError>,
) -> bool {
    match result {
        Ok(value) => success && value@ == reported_value(stdout, stderr),
        Err(error) => !success && match error {
            DoctorError::RunFailed { code: c, stderr: e, stdout: o } => {
                &&& c == code
                &&& e@ == text::tail_of(stderr, 1500)
                &&& o@ == text::tail_of(stdout, 1500)
            },
            _ => false,
        },
    }
}

/// Surfaces the end of the output where a run printed no report.
fn report_missing(stdout: &str, stderr: &str) -> (value: Json)
    ensures
        value@ == missing_report(stdout@, stderr@),
{
    let mut members: Vec<(String, Json)> = Vec::new();
    add_member(
        &mut members,
        "note",
        Json::text("noetl run succeeded but no JSON object was found on stdout"),
    );
    add_member(&mut members, "raw_stderr", Json::Text(tail(stderr, 1000)));
    add_member(&mut members, "raw_stdout", Json::Text(tail(stdout, 4000)));
    let value = Json::object(members);
    assert(value@->Object_0 =~= missing_report(stdout@, stderr@)->Object_0);
    value
}

/// The text of an optional document.
pub open spec fn document_view(document: Option<Document>) -> Option<Seq<u8>> {
    match document {
        Some(d) => Some(d@),
        None => None,
    }
}

/// Settles what a successful run reported: the report on stdout, else the one on stderr, else
/// the end of the output, so that nothing is swallowed.
pub fn settle_report(
    on_stdout: Option<Document>,
    on_stderr: Option<Document>,
    stdout: &str,
    stderr: &str,
) -> (value: Json)
    ensures
        value@ == value_of_reports(
            document_view(on_stdout),
            document_view(on_stderr),
            stdout@,
            stderr@,
        ),
{
    match on_stdout {
        Some(report) => Json::Document(report),
        None => match on_stderr {
            Some(report) => Json::Document(report),
            None => report_missing(stdout, stderr),
        },
    }
}

/// Tells what a finished run means from its exit status and the text that it printed.
pub fn interpret_text(success: bool, code: Option<i32>, stdout: &str, stderr: &str) -> (result:
    Result<Json, DoctorError>)
    ensures
        run_means(success, code, stdout@, stderr@, result),
{
    if !success {
        return Err(
            DoctorError::RunFailed { code, stderr: tail(stderr, 1500), stdout: tail(stdout, 1500) },
        );
    }
    let on_stdout = extract_last_json_object(stdout);
    let on_stderr = extract_last_json_object(stderr);
    Ok(settle_report(on_stdout, on_stderr, stdout, stderr))
}

/// Tells what a finished run means. Output that is UTF-8 is read as it is, other output with
/// replacement characters.
pub fn interpret_output(output: &ProcessOutput) -> (result: Result<Json, DoctorError>)
    ensures
        run_means(
            output.success,
            output.code,
            text::utf8_lossy(output.stdout@),
            text::utf8_lossy(output.stderr@),
            result,
        ),
        valid_utf8(output.stdout@) && valid_utf8(output.stderr@) ==> run_means(
            output.success,
            output.code,
            decode_utf8(output.stdout@),
            decode_utf8(output.stderr@),
            result,
        ),
        valid_utf8(output.stdout@) ==> text::utf8_lossy(output.stdout@) == decode_utf8(
            output.stdout@,
        ),
        valid_utf8(output.stderr@) ==> text::utf8_lossy(output.stderr@) == decode_utf8(
            output.stderr@,
        ),
{
    let stdout = lossy_text(output.stdout.as_slice());
    let stderr = lossy_text(output.stderr.as_slice());
    interpret_text(output.success, output.code, stdout.as_str(), stderr.as_str())
}

/// A report that a playbook prints last on stdout is what its run reports, whatever was
/// logged before it, and whatever without a closing bracket follows it.
pub proof fn law_printed_report_is_reported(
    stdout: Seq<char>,
    stderr: Seq<char>,
    before: Seq<u8>,
    report: Seq<u8>,
    after: Seq<u8>,
)
    requires
        encode_utf8(stdout) == before + report + after,
        extract::accepted(report, 0, report.len() - 1),
        forall|i: int| 0 <= i < after.len() ==> !extract::is_closing(#[trigger] after[i]),
    ensures
        reported_value(stdout, stderr) == JsonModel::Document(report),
{
    extract::law_report_survives_noise(before, report, after);
}

/// Where stdout holds no report, one that is printed last on stderr is reported.
pub proof fn law_report_on_stderr_is_reported(
    stdout: Seq<char>,
    stderr: Seq<char>,
    before: Seq<u8>,
    report: Seq<u8>,
    after: Seq<u8>,
)
    requires
        extract::no_report(encode_utf8(stdout)),
        encode_utf8(stderr) == before + report + after,
        extract::accepted(report, 0, report.len() - 1),
        forall|i: int| 0 <= i < after.len() ==> !extract::is_closing(#[trigger] after[i]),
    ensures
        reported_value(stdout, stderr) == JsonModel::Document(report),
{
    extract::law_report_survives_noise(before, report, after);
    assert forall|s: int, e: int| !#[trigger] extract::is_report(encode_utf8(stdout), s, e) by {
        assert(!extract::accepted(encode_utf8(stdout), s, e));
    }
}

/// A run that succeeds without a report on either output does not swallow what it printed:
/// the end of each output is reported in its place.
pub proof fn law_missing_report_surfaces_the_output(stdout: Seq<char>, stderr: Seq<char>)
    requires
        extract::no_report(encode_utf8(stdout)),
        extract::no_report(encode_utf8(stderr)),
    ensures
        reported_value(stdout, stderr) == missing_report(stdout, stderr),
{
    assert forall|s: int, e: int| !#[trigger] extract::is_report(encode_utf8(stdout), s, e) by {
        assert(!extract::accepted(encode_utf8(stdout), s, e));
    }
    assert forall|s: int, e: int| !#[trigger] extract::is_report(encode_utf8(stderr), s, e) by {
        assert(!extract::accepted(encode_utf8(stderr), s, e));
    }
}

} // verus!
