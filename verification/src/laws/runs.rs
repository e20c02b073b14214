//! Laws on running a playbook: the binary, its arguments, and what a finished run means.

use vstd::prelude::*;
#[allow(unused_imports)]
use vstd::utf8::*;

use std::path::PathBuf;

#[allow(unused_imports)]
use crate::json::{Document, Json, JsonModel};
use crate::laws::reports;
use crate::laws::texts;
use crate::runner;
#[allow(unused_imports)]
use crate::runner::{
    binary_error, interpret_output, interpret_text, resolve_noetl_binary, settle_report, Argument,
    BinaryOverride, DoctorError, PlaybookRunOptions, PlaybookRunner, ProcessOutput,
};
use crate::text;

verus! {

/// A binary that the caller names and that exists is the one to run, whatever a search of the
/// path gave; one that does not exist is an error that names it, whatever a search gave.
pub proof fn law_named_binary_counts(
    wanted: BinaryOverride,
    search: Result<PathBuf, String>,
    binary: Result<PathBuf, DoctorError>,
)
    requires
        call_ensures(resolve_noetl_binary, (Some(wanted), search), binary),
    ensures
        binary is Ok <==> wanted.exists,
        binary matches Ok(path) ==> path == wanted.path,
        binary matches Err(error) ==> error == (DoctorError::BinaryMissing { path: wanted.shown }),
{
}

/// Where the caller names a binary, two searches of the path make no difference.
pub proof fn law_search_does_not_bear_on_a_named_binary(
    wanted: BinaryOverride,
    one: Result<PathBuf, String>,
    other: Result<PathBuf, String>,
    by_one: Result<PathBuf, DoctorError>,
    by_other: Result<PathBuf, DoctorError>,
)
    requires
        call_ensures(resolve_noetl_binary, (Some(wanted), one), by_one),
        call_ensures(resolve_noetl_binary, (Some(wanted), other), by_other),
    ensures
        by_one == by_other,
{
}

/// Where the caller names no binary, the search of the path decides: what it found is run, and
/// why it found nothing is passed on.
pub proof fn law_search_counts_otherwise(
    search: Result<PathBuf, String>,
    binary: Result<PathBuf, DoctorError>,
)
    requires
        call_ensures(resolve_noetl_binary, (None, search), binary),
    ensures
        binary is Ok <==> search is Ok,
        search matches Ok(found) ==> binary == Ok::<PathBuf, DoctorError>(found),
        search matches Err(why) ==> binary == Err::<PathBuf, DoctorError>(
            DoctorError::CliNotFound { cause: why },
        ),
{
}

/// A runner runs the binary that it was made with.
pub proof fn law_runners_keep_their_binary(
    path: PathBuf,
    made: PlaybookRunner,
    binary: &PathBuf,
)
    requires
        call_ensures(PlaybookRunner::new, (path,), made),
        call_ensures(PlaybookRunner::binary, (&made,), binary),
    ensures
        *binary == path,
{
}

/// The argument is this text.
pub open spec fn is_text(argument: Argument, text: Seq<char>) -> bool {
    argument matches Argument::Text(t) && t@ == text
}

/// The argument is this file.
pub open spec fn is_file(argument: Argument, path: PathBuf) -> bool {
    argument matches Argument::File(p) && p == path
}

/// Behind the first four arguments, the pair of the given number stands behind a `--set`.
pub open spec fn sets(arguments: Seq<Argument>, i: int, pair: Seq<char>) -> bool {
    is_text(arguments[4 + 2 * i], "--set"@) && is_text(arguments[5 + 2 * i], pair)
}

/// `noetl` is called with `run`, the playbook, the runtime, and every pair of the run, each
/// behind a `--set`, in their order and however many there are; and with nothing else.
pub proof fn law_every_pair_is_passed_on(
    runner: PlaybookRunner,
    options: PlaybookRunOptions,
    arguments: Vec<Argument>,
)
    requires
        call_ensures(PlaybookRunner::arguments, (&runner, options), arguments),
    ensures
        arguments@.len() == 4 + 2 * options.set@.len(),
        is_text(arguments@[0], "run"@),
        is_file(arguments@[1], options.playbook),
        is_text(arguments@[2], "--runtime"@),
        is_text(arguments@[3], options.runtime@),
        forall|i: int|
            0 <= i < options.set@.len() ==> #[trigger] sets(arguments@, i, options.set@[i]@),
{
    let models = runner::arguments_view(arguments@);
    assert(models.len() == arguments@.len());
    assert(forall|i: int| 0 <= i < models.len() ==> #[trigger] models[i] == arguments@[i]@);
    assert(models[0] == arguments@[0]@);
    assert(models[1] == arguments@[1]@);
    assert(models[2] == arguments@[2]@);
    assert(models[3] == arguments@[3]@);
    assert forall|i: int| 0 <= i < options.set@.len() implies #[trigger] sets(
        arguments@,
        i,
        options.set@[i]@,
    ) by {
        assert(models[4 + 2 * i] == arguments@[4 + 2 * i]@);
        assert(models[5 + 2 * i] == arguments@[5 + 2 * i]@);
    }
}

/// What an error says: what failed, of what, and why.
pub proof fn law_messages_say_what_failed(error: DoctorError, message: String)
    requires
        call_ensures(DoctorError::message, (&error,), message),
    ensures
        error matches DoctorError::BinaryMissing { path } ==> message@
            == "--noetl-bin path does not exist: "@ + path@,
        error matches DoctorError::CliNotFound { cause } ==> {
            &&& "noetl CLI not found on PATH; install noetl 2.13.0+ (https://github.com/noetl/cli) or pass --noetl-bin /path/to/noetl: "@.is_prefix_of(
                message@,
            )
            &&& message@.skip(118) == cause@
        },
        error matches DoctorError::SpawnFailed { playbook, binary, cause } ==> message@
            == "failed to spawn `noetl run "@ + playbook@ + "` (binary at "@ + binary@ + "): "@
            + cause@,
        error matches DoctorError::RunFailed { code, stderr, stdout } ==> (exists|
            shown: Seq<char>,
        |
            #[trigger] is_shown(code, shown) && message@ == "noetl run failed (exit "@ + shown
                + ")\nstderr: "@ + stderr@ + "\nstdout: "@ + stdout@),
{
    match error {
        DoctorError::CliNotFound { cause } => {
            reveal_strlit(
                "noetl CLI not found on PATH; install noetl 2.13.0+ (https://github.com/noetl/cli) or pass --noetl-bin /path/to/noetl",
            );
            reveal_strlit(
                "noetl CLI not found on PATH; install noetl 2.13.0+ (https://github.com/noetl/cli) or pass --noetl-bin /path/to/noetl: ",
            );
            reveal_strlit(": ");
            let start =
                "noetl CLI not found on PATH; install noetl 2.13.0+ (https://github.com/noetl/cli) or pass --noetl-bin /path/to/noetl"@
                + ": "@;
            assert(start
                =~= "noetl CLI not found on PATH; install noetl 2.13.0+ (https://github.com/noetl/cli) or pass --noetl-bin /path/to/noetl: "@);
            assert(start =~= message@.subrange(0, start.len() as int));
            assert(start.len() == 118);
            assert(message@.skip(118) =~= cause@);
        },
        DoctorError::SpawnFailed { playbook, binary, cause } => {
            reveal_strlit("): ");
            reveal_strlit(")");
            reveal_strlit(": ");
            assert(")"@ + ": "@ =~= "): "@);
            assert(message@ =~= "failed to spawn `noetl run "@ + playbook@ + "` (binary at "@
                + binary@ + "): "@ + cause@);
        },
        DoctorError::RunFailed { code, .. } => {
            lemma_shown(code);
            assert(is_shown(code, runner::code_text(code)));
        },
        _ => {},
    }
}

/// An exit code as it is shown: the number in brackets, or that there is none.
pub open spec fn is_shown(code: Option<i32>, shown: Seq<char>) -> bool {
    match code {
        Some(c) => {
            &&& shown.len() >= 6
            &&& shown.take(5) == "Some("@
            &&& shown.last() == ')'
            &&& texts::is_written_signed(shown.subrange(5, shown.len() - 1), c as int)
        },
        None => shown == "None"@,
    }
}

proof fn lemma_shown(code: Option<i32>)
    ensures
        is_shown(code, runner::code_text(code)),
{
    if let Some(c) = code {
        reveal_strlit("Some(");
        reveal_strlit(")");
        texts::law_signs_are_written(c as int);
        let digits = text::signed_decimal(c as int);
        let shown = runner::code_text(code);
        assert("Some("@.len() == 5 && ")"@.len() == 1);
        assert(shown.take(5) =~= "Some("@);
        assert(shown.subrange(5, shown.len() - 1) =~= digits);
    }
}

/// The message where no binary could be settled says what was being done before it says what
/// went wrong.
pub proof fn law_binary_errors_say_what_was_done(
    error: DoctorError,
    message: String,
    text: String,
)
    requires
        call_ensures(DoctorError::message, (&error,), message),
        call_ensures(binary_error, (&error,), text),
    ensures
        text@ == "locating noetl CLI binary: "@ + message@,
{
}

/// What stands for a report where neither output holds one: a note, and the end of each
/// output.
pub open spec fn surfaces(value: JsonModel, stdout: Seq<char>, stderr: Seq<char>) -> bool {
    &&& reports::has_members(value, 3)
    &&& reports::holds(
        value,
        "note"@,
        JsonModel::Text("noetl run succeeded but no JSON object was found on stdout"@),
    )
    &&& exists|cut: Seq<char>| #[trigger]
        texts::is_cut(stdout, cut, 4000) && reports::holds(
            value,
            "raw_stdout"@,
            JsonModel::Text(cut),
        )
    &&& exists|cut: Seq<char>| #[trigger]
        texts::is_cut(stderr, cut, 1000) && reports::holds(
            value,
            "raw_stderr"@,
            JsonModel::Text(cut),
        )
}

proof fn lemma_surfaces(stdout: Seq<char>, stderr: Seq<char>)
    ensures
        surfaces(runner::missing_report(stdout, stderr), stdout, stderr),
{
    reveal_strlit("note");
    reveal_strlit("raw_stdout");
    reveal_strlit("raw_stderr");
    assert("note"@.len() == 4 && "raw_stdout"@.len() == 10 && "raw_stderr"@.len() == 10);
    assert("raw_stdout"@[7] == 'o' && "raw_stderr"@[7] == 'e');
    let members = runner::missing_report(stdout, stderr)->Object_0;
    reports::lemma_holds(members, 0);
    reports::lemma_holds(members, 1);
    reports::lemma_holds(members, 2);
    texts::law_cut_text(stdout, 4000);
    texts::law_cut_text(stderr, 1000);
    assert(texts::is_cut(stdout, text::tail_of(stdout, 4000), 4000));
    assert(texts::is_cut(stderr, text::tail_of(stderr, 1000), 1000));
}

/// What two outputs, as bytes, report: the value that ends last on stdout; where none stands
/// there, the one that ends last on stderr.
pub open spec fn is_reported(value: JsonModel, stdout: Seq<u8>, stderr: Seq<u8>) -> bool {
    &&& forall|s: int, e: int| #[trigger]
        texts::is_last_value(stdout, s, e) ==> value == JsonModel::Document(
            stdout.subrange(s, e + 1),
        )
    &&& texts::holds_no_value(stdout) ==> forall|s: int, e: int| #[trigger]
        texts::is_last_value(stderr, s, e) ==> value == JsonModel::Document(
            stderr.subrange(s, e + 1),
        )
    &&& value is Document <==> !texts::holds_no_value(stdout) || !texts::holds_no_value(stderr)
}

proof fn lemma_reported(stdout: Seq<char>, stderr: Seq<char>)
    ensures
        is_reported(
            runner::reported_value(stdout, stderr),
            encode_utf8(stdout),
            encode_utf8(stderr),
        ),
        texts::holds_no_value(encode_utf8(stdout)) && texts::holds_no_value(encode_utf8(stderr))
            ==> surfaces(runner::reported_value(stdout, stderr), stdout, stderr),
{
    texts::law_last_value_is_the_report(encode_utf8(stdout));
    texts::law_last_value_is_the_report(encode_utf8(stderr));
    lemma_surfaces(stdout, stderr);
}

/// A run that succeeds always comes to a value. Whenever a JSON object or array stands in its
/// stdout, the value is the one that ends last there, whatever follows it, closing brackets
/// that end no JSON among it, and whatever stands on stderr. Where none does, stderr is looked
/// at in the same way, and where none stands there either, the end of both is surfaced.
pub proof fn law_successful_run_reports_the_last_value(
    code: Option<i32>,
    stdout: &str,
    stderr: &str,
    result: Result<Json, DoctorError>,
)
    requires
        call_ensures(interpret_text, (true, code, stdout, stderr), result),
    ensures
        result is Ok,
        is_reported(result->Ok_0@, encode_utf8(stdout@), encode_utf8(stderr@)),
        texts::holds_no_value(encode_utf8(stdout@)) && texts::holds_no_value(encode_utf8(stderr@))
            ==> surfaces(result->Ok_0@, stdout@, stderr@),
        forall|s: int, e: int| #[trigger]
            texts::is_value(encode_utf8(stdout@), s, e) ==> (exists|from: int, to: int|
                e <= to && #[trigger] texts::is_last_value(encode_utf8(stdout@), from, to)
                    && result->Ok_0@ == JsonModel::Document(
                    encode_utf8(stdout@).subrange(from, to + 1),
                )),
{
    lemma_reported(stdout@, stderr@);
    let bytes = encode_utf8(stdout@);
    texts::law_last_value_is_the_report(bytes);
    assert forall|s: int, e: int| #[trigger] texts::is_value(bytes, s, e) implies (exists|
        from: int,
        to: int,
    |
        e <= to && #[trigger] texts::is_last_value(bytes, from, to) && result->Ok_0@
            == JsonModel::Document(bytes.subrange(from, to + 1))) by {
        let (from, to) = choose|from: int, to: int| #[trigger]
            texts::is_last_value(bytes, from, to);
        assert(texts::is_last_value(bytes, from, to));
    }
}

/// Where stdout holds a value, neither stderr nor the exit code bears on what a successful run
/// reports.
pub proof fn law_stdout_comes_first(
    stdout: &str,
    one_code: Option<i32>,
    one_stderr: &str,
    one: Result<Json, DoctorError>,
    other_code: Option<i32>,
    other_stderr: &str,
    other: Result<Json, DoctorError>,
)
    requires
        !texts::holds_no_value(encode_utf8(stdout@)),
        call_ensures(interpret_text, (true, one_code, stdout, one_stderr), one),
        call_ensures(interpret_text, (true, other_code, stdout, other_stderr), other),
    ensures
        one is Ok && other is Ok && one->Ok_0@ == other->Ok_0@,
{
    law_successful_run_reports_the_last_value(one_code, stdout, one_stderr, one);
    law_successful_run_reports_the_last_value(other_code, stdout, other_stderr, other);
    texts::law_last_value_is_the_report(encode_utf8(stdout@));
}

/// The error of a failed run holds its exit code and the end of each output.
pub open spec fn is_failure(
    error: DoctorError,
    code: Option<i32>,
    stdout: Seq<char>,
    stderr: Seq<char>,
) -> bool {
    error matches DoctorError::RunFailed { code: c, stderr: e, stdout: o } && {
        &&& c == code
        &&& texts::is_cut(stderr, e@, 1500)
        &&& texts::is_cut(stdout, o@, 1500)
    }
}

/// A run that fails is an error, whatever it printed.
pub proof fn law_failed_run_is_an_error(
    code: Option<i32>,
    stdout: &str,
    stderr: &str,
    result: Result<Json, DoctorError>,
)
    requires
        call_ensures(interpret_text, (false, code, stdout, stderr), result),
    ensures
        result matches Err(error) && is_failure(error, code, stdout@, stderr@),
{
    texts::law_cut_text(stdout@, 1500);
    texts::law_cut_text(stderr@, 1500);
}

/// The same of the bytes that a process printed: a value in stdout that is UTF-8 is found and
/// reported, whether or not stderr is UTF-8; a failure is an error.
pub proof fn law_finished_process_reports_the_last_value(
    output: ProcessOutput,
    result: Result<Json, DoctorError>,
)
    requires
        call_ensures(interpret_output, (&output,), result),
    ensures
        result is Ok <==> output.success,
        output.success && valid_utf8(output.stdout@) ==> (forall|s: int, e: int| #[trigger]
            texts::is_last_value(output.stdout@, s, e) ==> result->Ok_0@ == JsonModel::Document(
                output.stdout@.subrange(s, e + 1),
            )),
        output.success && valid_utf8(output.stdout@) && valid_utf8(output.stderr@) ==> is_reported(
            result->Ok_0@,
            output.stdout@,
            output.stderr@,
        ),
        output.success && valid_utf8(output.stdout@) && valid_utf8(output.stderr@)
            && texts::holds_no_value(output.stdout@) && texts::holds_no_value(output.stderr@)
            ==> surfaces(
            result->Ok_0@,
            decode_utf8(output.stdout@),
            decode_utf8(output.stderr@),
        ),
        output.success ==> is_reported(
            result->Ok_0@,
            encode_utf8(text::utf8_lossy(output.stdout@)),
            encode_utf8(text::utf8_lossy(output.stderr@)),
        ),
        output.success && texts::holds_no_value(encode_utf8(text::utf8_lossy(output.stdout@)))
            && texts::holds_no_value(encode_utf8(text::utf8_lossy(output.stderr@))) ==> surfaces(
            result->Ok_0@,
            text::utf8_lossy(output.stdout@),
            text::utf8_lossy(output.stderr@),
        ),
        result matches Err(error) ==> is_failure(
            error,
            output.code,
            text::utf8_lossy(output.stdout@),
            text::utf8_lossy(output.stderr@),
        ),
{
    let stdout = text::utf8_lossy(output.stdout@);
    let stderr = text::utf8_lossy(output.stderr@);
    lemma_reported(stdout, stderr);
    texts::law_cut_text(stdout, 1500);
    texts::law_cut_text(stderr, 1500);
    if valid_utf8(output.stdout@) {
        decode_utf8_encode_utf8(output.stdout@);
    }
    if valid_utf8(output.stderr@) {
        decode_utf8_encode_utf8(output.stderr@);
    }
}

/// A report on stdout is what is reported, as it is and whatever was printed around it; else
/// one on stderr is; else the end of both outputs.
pub proof fn law_found_report_is_reported(
    on_stdout: Option<Document>,
    on_stderr: Option<Document>,
    stdout: &str,
    stderr: &str,
    value: Json,
)
    requires
        call_ensures(settle_report, (on_stdout, on_stderr, stdout, stderr), value),
    ensures
        on_stdout matches Some(report) ==> value@ == JsonModel::Document(report@),
        on_stdout is None && on_stderr is Some ==> value@ == JsonModel::Document(on_stderr->0@),
        on_stdout is None && on_stderr is None ==> surfaces(value@, stdout@, stderr@),
{
    lemma_surfaces(stdout@, stderr@);
}

} // verus!
