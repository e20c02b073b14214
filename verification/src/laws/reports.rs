//! Laws on JSON values, outcomes and exit codes.

use vstd::prelude::*;

use crate::json;
#[allow(unused_imports)]
use crate::json::{Document, Json, JsonModel};
use crate::report;
#[allow(unused_imports)]
use crate::report::{
    exit_code_for_outcome, exit_code_for_run, severity_for_status, Outcome, Severity,
};

verus! {

/// A member of the given name stands among the members, and what stands under that name is
/// `value`.
pub open spec fn members_hold(
    members: Seq<(Seq<char>, JsonModel)>,
    name: Seq<char>,
    value: JsonModel,
) -> bool {
    &&& exists|i: int| 0 <= i < members.len() && (#[trigger] members[i]).0 == name
    &&& forall|i: int|
        0 <= i < members.len() && (#[trigger] members[i]).0 == name ==> members[i].1 == value
}

/// No member of the given name stands among the members.
pub open spec fn members_lack(members: Seq<(Seq<char>, JsonModel)>, name: Seq<char>) -> bool {
    forall|i: int| 0 <= i < members.len() ==> (#[trigger] members[i]).0 != name
}

/// An object has a member of the given name, and what is under that name is `value`.
pub open spec fn holds(object: JsonModel, name: Seq<char>, value: JsonModel) -> bool {
    object is Object && members_hold(object->Object_0, name, value)
}

/// An object has no member of the given name.
pub open spec fn lacks(object: JsonModel, name: Seq<char>) -> bool {
    object is Object && members_lack(object->Object_0, name)
}

/// An object has this many members.
pub open spec fn has_members(object: JsonModel, n: int) -> bool {
    object matches JsonModel::Object(members) && members.len() == n
}

/// The member at `at` is one of the members of that name, and so the one where they agree.
pub proof fn lemma_holds(members: Seq<(Seq<char>, JsonModel)>, at: int)
    requires
        0 <= at < members.len(),
        forall|i: int|
            0 <= i < members.len() && i != at ==> (#[trigger] members[i]).0 != members[at].0,
    ensures
        holds(JsonModel::Object(members), members[at].0, members[at].1),
{
    assert(members[at].0 == members[at].0);
}

/// A name is found at the first place where it stands, if it stands anywhere.
proof fn lemma_member(members: Seq<(Seq<char>, JsonModel)>, name: Seq<char>)
    ensures
        forall|v: JsonModel| #[trigger]
            holds(JsonModel::Object(members), name, v) ==> json::member(members, name) == Some(v),
        lacks(JsonModel::Object(members), name) <==> json::member(members, name) is None,
        json::member(members, name) matches Some(v) ==> exists|i: int|
            0 <= i < members.len() && #[trigger] members[i] == (name, v),
    decreases members.len(),
{
    let object = JsonModel::Object(members);
    if members.len() == 0 {
        assert(members_lack(members, name));
    } else {
        let rest = members.drop_first();
        lemma_member(rest, name);
        assert(forall|i: int| 0 <= i < rest.len() ==> #[trigger] rest[i] == members[i + 1]);
        assert(forall|i: int| 0 < i < members.len() ==> #[trigger] members[i] == rest[i - 1]);
        if members[0].0 == name {
            assert(members[0] == (name, members[0].1));
        } else {
            assert forall|v: JsonModel| #[trigger] holds(object, name, v) implies json::member(
                members,
                name,
            ) == Some(v) by {
                let i = choose|i: int| 0 <= i < members.len() && (#[trigger] members[i]).0 == name;
                assert(rest[i - 1].0 == name);
                assert(members_hold(rest, name, v));
                assert(holds(JsonModel::Object(rest), name, v));
            }
            if members_lack(rest, name) {
                assert(members_lack(members, name));
            }
            if members_lack(members, name) {
                assert forall|i: int| 0 <= i < rest.len() implies (#[trigger] rest[i]).0
                    != name by {
                    assert(members[i + 1].0 != name);
                }
            }
            assert(lacks(JsonModel::Object(rest), name) == lacks(object, name));
            if json::member(rest, name) is Some {
                let v = json::member(rest, name)->0;
                let i = choose|i: int| 0 <= i < rest.len() && #[trigger] rest[i] == (name, v);
                assert(members[i + 1] == (name, v));
            }
        }
    }
}

/// A JSON value is what it holds.
pub proof fn law_values_are_what_they_hold(
    text: String,
    flag: bool,
    number: i64,
    items: Vec<Json>,
    members: Vec<(String, Json)>,
    document: Document,
)
    ensures
        Json::Text(text)@ == JsonModel::Text(text@),
        Json::Bool(flag)@ == JsonModel::Bool(flag),
        Json::Number(number)@ == JsonModel::Number(number as int),
        Json::Document(document)@ == JsonModel::Document(document@),
        Json::Array(items)@ matches JsonModel::Array(models) && models.len() == items@.len()
            && forall|i: int| 0 <= i < items@.len() ==> #[trigger] models[i] == items@[i]@,
        Json::Object(members)@ matches JsonModel::Object(models) && models.len() == members@.len()
            && forall|i: int|
            0 <= i < members@.len() ==> #[trigger] models[i] == (
                members@[i].0@,
                members@[i].1@,
            ),
{
}

/// A JSON value is built of what it is given.
pub proof fn law_values_are_built(
    text: &str,
    items: Vec<Json>,
    members: Vec<(String, Json)>,
    as_text: Json,
    as_array: Json,
    as_object: Json,
)
    requires
        call_ensures(Json::text, (text,), as_text),
        call_ensures(Json::array, (items,), as_array),
        call_ensures(Json::object, (members,), as_object),
    ensures
        as_text@ == JsonModel::Text(text@),
        as_array@ matches JsonModel::Array(models) && models.len() == items@.len() && forall|
            i: int,
        |
            0 <= i < items@.len() ==> #[trigger] models[i] == items@[i]@,
        as_object@ matches JsonModel::Object(models) && models.len() == members@.len() && forall|
            i: int,
        |
            0 <= i < members@.len() ==> #[trigger] models[i] == (
                members@[i].0@,
                members@[i].1@,
            ),
{
}

/// A text parses exactly when it is valid JSON, and the document keeps the text byte for byte.
pub proof fn law_documents_keep_their_text(
    text: Vec<u8>,
    document: Option<Document>,
    kept: &Vec<u8>,
)
    requires
        call_ensures(Document::parse, (text,), document),
        document matches Some(d) ==> call_ensures(Document::text, (&d,), kept),
    ensures
        document is Some <==> json::json_valid(text@),
        document is Some ==> kept@ == text@,
{
}

/// The status and the flag of a document are those of its text.
pub proof fn law_documents_tell_their_members(
    document: Document,
    status: Option<String>,
    ok: Option<bool>,
)
    requires
        call_ensures(Document::status, (&document,), status),
        call_ensures(Document::ok, (&document,), ok),
    ensures
        status is Some <==> json::json_text_member(document@, "status"@) is Some,
        status is Some ==> json::json_text_member(document@, "status"@) == Some(status->0@),
        ok == json::json_flag_member(document@, "ok"@),
{
}

/// What is read under `status`: the string there, of a document as of a built object.
pub proof fn law_status_is_read(value: Json, status: Option<String>)
    requires
        call_ensures(Json::status, (&value,), status),
    ensures
        forall|t: Seq<char>| #[trigger]
            holds(value@, "status"@, JsonModel::Text(t)) ==> (status matches Some(s) && s@ == t),
        lacks(value@, "status"@) ==> status is None,
        value@ matches JsonModel::Document(text) ==> {
            &&& status is Some <==> json::json_text_member(text, "status"@) is Some
            &&& status is Some ==> json::json_text_member(text, "status"@) == Some(status->0@)
        },
        value@ is Text || value@ is Bool || value@ is Number || value@ is Array ==> status is None,
        value@ matches JsonModel::Object(members) ==> (status matches Some(s) ==> exists|i: int|
            0 <= i < members.len() && #[trigger] members[i] == ("status"@, JsonModel::Text(s@))),
{
    if let JsonModel::Object(members) = value@ {
        lemma_member(members, "status"@);
    }
}

/// What is read under `ok`: the boolean there, of a document as of a built object.
pub proof fn law_flag_is_read(value: Json, ok: Option<bool>)
    requires
        call_ensures(Json::ok, (&value,), ok),
    ensures
        forall|b: bool| #[trigger] holds(value@, "ok"@, JsonModel::Bool(b)) ==> ok == Some(b),
        lacks(value@, "ok"@) ==> ok is None,
        value@ matches JsonModel::Document(text) ==> ok == json::json_flag_member(text, "ok"@),
        value@ is Text || value@ is Bool || value@ is Number || value@ is Array ==> ok is None,
        value@ matches JsonModel::Object(members) ==> (ok matches Some(b) ==> exists|i: int|
            0 <= i < members.len() && #[trigger] members[i] == ("ok"@, JsonModel::Bool(b))),
{
    if let JsonModel::Object(members) = value@ {
        lemma_member(members, "ok"@);
    }
}

/// `ok` is all clear, `noop` a repair and `error` an error, each alone; every other status is
/// an anomaly.
pub proof fn law_status_tells_the_severity(status: &str, severity: Severity)
    requires
        call_ensures(severity_for_status, (status,), severity),
    ensures
        severity == Severity::Clear <==> status@ == "ok"@,
        severity == Severity::Repaired <==> status@ == "noop"@,
        severity == Severity::Error <==> status@ == "error"@,
        severity == Severity::Anomaly <==> status@ != "ok"@ && status@ != "noop"@ && status@
            != "error"@,
{
    lemma_statuses_differ();
}

/// The four statuses of the convention are four.
pub proof fn lemma_statuses_differ()
    ensures
        "ok"@ != "stuck"@ && "ok"@ != "noop"@ && "ok"@ != "error"@,
        "noop"@ != "stuck"@ && "noop"@ != "error"@ && "error"@ != "stuck"@,
        "unknown"@ != "ok"@ && "unknown"@ != "noop"@ && "unknown"@ != "error"@,
{
    reveal_strlit("ok");
    reveal_strlit("stuck");
    reveal_strlit("noop");
    reveal_strlit("error");
    reveal_strlit("unknown");
    assert("ok"@.len() == 2 && "noop"@.len() == 4 && "unknown"@.len() == 7);
    assert("stuck"@.len() == 5 && "error"@.len() == 5);
    assert("stuck"@[0] == 's' && "error"@[0] == 'e');
}

/// The status that a playbook reports settles the exit code; action and data are passed on as
/// they came.
pub proof fn law_outcome_by_status(
    action: String,
    status: &str,
    data: Json,
    outcome: Outcome,
    code: u8,
)
    requires
        call_ensures(Outcome::from_status, (action, status, data), outcome),
        call_ensures(exit_code_for_outcome, (&outcome,), code),
    ensures
        outcome.action@ == action@,
        outcome.data@ == data@,
        outcome.severity == Severity::Clear <==> status@ == "ok"@,
        outcome.severity == Severity::Repaired <==> status@ == "noop"@,
        code == 0 <==> status@ == "ok"@ || status@ == "noop"@,
        code == 3 <==> status@ == "error"@,
        code == 2 <==> status@ != "ok"@ && status@ != "noop"@ && status@ != "error"@,
        is_in_utc(outcome.generated_at@),
{
    lemma_statuses_differ();
    lemma_in_utc(outcome.generated_at@);
}

/// A check that holds is all clear, one that does not is an anomaly; action and data are
/// passed on as they came.
pub proof fn law_outcome_by_flag(action: String, ok: bool, data: Json, outcome: Outcome, code: u8)
    requires
        call_ensures(Outcome::for_bool, (action, ok, data), outcome),
        call_ensures(exit_code_for_outcome, (&outcome,), code),
    ensures
        outcome.action@ == action@,
        outcome.data@ == data@,
        outcome.severity == Severity::Clear <==> ok,
        outcome.severity == Severity::Anomaly <==> !ok,
        code == 0 <==> ok,
        code == 2 <==> !ok,
        is_in_utc(outcome.generated_at@),
{
    lemma_in_utc(outcome.generated_at@);
}

/// A time in UTC: at least a date and a time of day in full, with a `T` between them and the
/// offset of UTC behind them.
pub open spec fn is_in_utc(stamp: Seq<char>) -> bool {
    &&& stamp.len() >= 25
    &&& stamp.contains('T')
    &&& "+00:00"@.is_suffix_of(stamp)
}

/// What the clock gives is a time in UTC.
pub proof fn lemma_in_utc(stamp: Seq<char>)
    requires
        report::is_utc_timestamp(stamp),
    ensures
        is_in_utc(stamp),
{
    reveal_strlit("+00:00");
    let t = choose|t: int| #[trigger] report::is_date_and_time(stamp, t);
    assert(stamp[t] == 'T');
    assert(stamp.skip(stamp.len() - 6) =~= stamp.subrange(stamp.len() - 6, stamp.len() as int));
}

/// An outcome is of the severity that it is made with, keeps action and data, and holds the
/// time in UTC.
pub proof fn law_outcomes_are_as_made(
    action: String,
    data: Json,
    ok: Outcome,
    anomaly: Outcome,
    repaired: Outcome,
    error: Outcome,
)
    requires
        call_ensures(Outcome::ok, (action, data), ok),
        call_ensures(Outcome::anomaly, (action, data), anomaly),
        call_ensures(Outcome::repaired, (action, data), repaired),
        call_ensures(Outcome::error, (action, data), error),
    ensures
        ok.severity == Severity::Clear && ok.action@ == action@ && ok.data@ == data@,
        anomaly.severity == Severity::Anomaly && anomaly.action@ == action@ && anomaly.data@
            == data@,
        repaired.severity == Severity::Repaired && repaired.action@ == action@ && repaired.data@
            == data@,
        error.severity == Severity::Error && error.action@ == action@ && error.data@ == data@,
        is_in_utc(ok.generated_at@),
        is_in_utc(anomaly.generated_at@),
        is_in_utc(repaired.generated_at@),
        is_in_utc(error.generated_at@),
{
    lemma_in_utc(ok.generated_at@);
    lemma_in_utc(anomaly.generated_at@);
    lemma_in_utc(repaired.generated_at@);
    lemma_in_utc(error.generated_at@);
}

/// An outcome that is given its time keeps it, as it keeps the rest.
pub proof fn law_stamps_are_kept(
    action: String,
    severity: Severity,
    generated_at: String,
    data: Json,
    outcome: Outcome,
)
    requires
        call_ensures(Outcome::stamped, (action, severity, generated_at, data), outcome),
    ensures
        outcome == (Outcome { action, severity, generated_at, data }),
{
}

/// All clear and repaired exit with 0, an anomaly with 2, an error with 3; a run without an
/// outcome exits as an error does.
pub proof fn law_exit_codes(outcome: Outcome, code: u8, of_run: u8, of_failure: u8)
    requires
        call_ensures(exit_code_for_outcome, (&outcome,), code),
        call_ensures(exit_code_for_run, (Some(&outcome),), of_run),
        call_ensures(exit_code_for_run, (None,), of_failure),
    ensures
        code == 0 <==> outcome.severity is Clear || outcome.severity is Repaired,
        code == 2 <==> outcome.severity is Anomaly,
        code == 3 <==> outcome.severity is Error,
        of_run == code,
        of_failure == 3,
{
}

/// The four severities go by their names.
pub proof fn law_severities_go_by_their_names(severity: Severity, name: &'static str)
    requires
        call_ensures(Severity::as_str, (severity,), name),
    ensures
        severity is Clear ==> name@ == "ok"@,
        severity is Anomaly ==> name@ == "anomaly"@,
        severity is Repaired ==> name@ == "repaired"@,
        severity is Error ==> name@ == "error"@,
{
}

/// A printed outcome holds the action, the severity by its name, the exit code of the process,
/// the time and the data, and nothing else.
pub proof fn law_printed_outcome_holds_it_all(
    outcome: Outcome,
    name: &'static str,
    code: u8,
    printed: Json,
)
    requires
        call_ensures(Outcome::into_json, (outcome,), printed),
        call_ensures(Severity::as_str, (outcome.severity,), name),
        call_ensures(exit_code_for_outcome, (&outcome,), code),
    ensures
        holds(printed@, "action"@, JsonModel::Text(outcome.action@)),
        holds(printed@, "severity"@, JsonModel::Text(name@)),
        holds(printed@, "exit_code"@, JsonModel::Number(code as int)),
        holds(printed@, "generated_at"@, JsonModel::Text(outcome.generated_at@)),
        holds(printed@, "data"@, outcome.data@),
        has_members(printed@, 5),
{
    reveal_strlit("action");
    reveal_strlit("severity");
    reveal_strlit("exit_code");
    reveal_strlit("generated_at");
    reveal_strlit("data");
    assert("action"@.len() == 6 && "severity"@.len() == 8 && "exit_code"@.len() == 9);
    assert("generated_at"@.len() == 12 && "data"@.len() == 4);
    let members = printed@->Object_0;
    lemma_holds(members, 0);
    lemma_holds(members, 1);
    lemma_holds(members, 2);
    lemma_holds(members, 3);
    lemma_holds(members, 4);
}

} // verus!
