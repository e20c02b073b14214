//! The stable shape of what the doctor reports.
//!
//! Monitoring rules pin against the action, the severity and the exit code of an outcome. The
//! data depends on the playbook and is passed on as it came.

use vstd::prelude::*;

use crate::json;
use crate::json::{add_member, Json};
#[allow(unused_imports)]
use crate::json::JsonModel;
use crate::text::same_text;

verus! {

/// How an action ended.
#[derive(Debug, Clone, Copy, PartialEq, Eq, Structural)]
pub enum Severity {
    /// All clear.
    Clear,
    /// Anomaly surfaced; monitoring should branch.
    Anomaly,
    /// Repair attempted; check the data to see what happened.
    Repaired,
    /// The doctor could not complete the action.
    Error,
}

/// The name of a severity in a report.
pub open spec fn severity_name(severity: Severity) -> Seq<char> {
    match severity {
        Severity::Clear => "ok"@,
        Severity::Anomaly => "anomaly"@,
        Severity::Repaired => "repaired"@,
        Severity::Error => "error"@,
    }
}

impl Severity {
    /// The name of the severity in a report.
    pub fn as_str(self) -> (name: &'static str)
        ensures
            name@ == severity_name(self),
    {
        match self {
            Severity::Clear => "ok",
            Severity::Anomaly => "anomaly",
            Severity::Repaired => "repaired",
            Severity::Error => "error",
        }
    }
}

/// The severity that the bundled playbooks mean by a status. A status that none of them uses
/// counts as an anomaly.
pub open spec fn severity_of_status(status: Seq<char>) -> Severity {
    if status == "ok"@ {
        Severity::Clear
    } else if status == "stuck"@ {
        Severity::Anomaly
    } else if status == "noop"@ {
        Severity::Repaired
    } else if status == "error"@ {
        Severity::Error
    } else {
        Severity::Anomaly
    }
}

/// The severity that a playbook means by a status.
pub fn severity_for_status(status: &str) -> (severity: Severity)
    ensures
        severity == severity_of_status(status@),
{
    if same_text(status, "ok") {
        Severity::Clear
    } else if same_text(status, "stuck") {
        Severity::Anomaly
    } else if same_text(status, "noop") {
        Severity::Repaired
    } else if same_text(status, "error") {
        Severity::Error
    } else {
        Severity::Anomaly
    }
}

/// The severity of a check that either holds or does not.
pub open spec fn severity_of_flag(ok: bool) -> Severity {
    if ok {
        Severity::Clear
    } else {
        Severity::Anomaly
    }
}

/// Whether a character is a decimal digit.
pub open spec fn is_digit(c: char) -> bool {
    '0' <= c <= '9'
}

/// Whether two digits stand at `at`.
pub open spec fn two_digits(text: Seq<char>, at: int) -> bool {
    is_digit(text[at]) && is_digit(text[at + 1])
}

/// The shape of a point in time in UTC after RFC 3339: a date with a year of four places or
/// more, `T`, a time of day with or without a fraction, and the offset `+00:00`.
pub open spec fn is_utc_timestamp(text: Seq<char>) -> bool {
    &&& text.len() >= 25
    &&& text.skip(text.len() - 6) == "+00:00"@
    &&& exists|t: int| #[trigger] is_date_and_time(text, t)
}

/// `T` stands at `t`, between `-MM-DD` and `HH:MM:SS`.
pub open spec fn is_date_and_time(text: Seq<char>, t: int) -> bool {
    &&& 10 <= t <= text.len() - 15
    &&& text[t - 6] == '-' && two_digits(text, t - 5)
    &&& text[t - 3] == '-' && two_digits(text, t - 2)
    &&& text[t] == 'T' && two_digits(text, t + 1)
    &&& text[t + 3] == ':' && two_digits(text, t + 4)
    &&& text[t + 6] == ':' && two_digits(text, t + 7)
}

/// Calls `chrono::Utc::now` and `DateTime::to_rfc3339`. The claim: whatever the clock shows,
/// the text has the shape of a point in time in UTC. Which point it is depends on the clock
/// and is left unsaid. `Utc::now` needs a clock that stands after 1970.
#[verifier::external_body]
fn now_iso() -> (text: String)
    ensures
        is_utc_timestamp(text@),
{
    chrono::Utc::now().to_rfc3339()
}

/// What came of an action.
#[derive(Debug)]
pub struct Outcome {
    pub action: String,
    pub severity: Severity,
    pub generated_at: String,
    pub data: Json,
}

/// What a report of an outcome holds.
pub open spec fn outcome_model(
    action: Seq<char>,
    severity: Severity,
    generated_at: Seq<char>,
    data: JsonModel,
) -> JsonModel {
    JsonModel::Object(
        seq![
            ("action"@, JsonModel::Text(action)),
            ("severity"@, JsonModel::Text(severity_name(severity))),
            ("exit_code"@, JsonModel::Number(exit_code_of(severity) as int)),
            ("generated_at"@, JsonModel::Text(generated_at)),
            ("data"@, data),
        ],
    )
}

impl Outcome {
    /// The outcome is that of the given action, with the given severity and data, made at
    /// some point in time.
    pub open spec fn reports(self, action: Seq<char>, severity: Severity, data: JsonModel) -> bool {
        &&& self.action@ == action
        &&& self.severity == severity
        &&& self.data@ == data
        &&& is_utc_timestamp(self.generated_at@)
    }

    /// An outcome made at a given point in time.
    pub fn stamped(action: String, severity: Severity, generated_at: String, data: Json) -> (outcome:
        Outcome)
        ensures
            outcome.action == action,
            outcome.severity == severity,
            outcome.generated_at == generated_at,
            outcome.data == data,
    {
        Outcome { action, severity, generated_at, data }
    }

    /// All clear.
    pub fn ok(action: String, data: Json) -> (outcome: Outcome)
        ensures
            outcome.reports(action@, Severity::Clear, data@),
    {
        Outcome::stamped(action, Severity::Clear, now_iso(), data)
    }

    /// An anomaly.
    pub fn anomaly(action: String, data: Json) -> (outcome: Outcome)
        ensures
            outcome.reports(action@, Severity::Anomaly, data@),
    {
        Outcome::stamped(action, Severity::Anomaly, now_iso(), data)
    }

    /// A repair was attempted.
    pub fn repaired(action: String, data: Json) -> (outcome: Outcome)
        ensures
            outcome.reports(action@, Severity::Repaired, data@),
    {
        Outcome::stamped(action, Severity::Repaired, now_iso(), data)
    }

    /// The action could not be completed.
    pub fn error(action: String, data: Json) -> (outcome: Outcome)
        ensures
            outcome.reports(action@, Severity::Error, data@),
    {
        Outcome::stamped(action, Severity::Error, now_iso(), data)
    }

    /// An outcome whose severity follows from the status that a playbook reported: `ok` is
    /// all clear, `stuck` an anomaly, `noop` a repair, `error` an error, and anything else an
    /// anomaly.
    pub fn from_status(action: String, status: &str, data: Json) -> (outcome: Outcome)
        ensures
            outcome.reports(action@, severity_of_status(status@), data@),
    {
        Outcome::stamped(action, severity_for_status(status), now_iso(), data)
    }

    /// All clear where the check holds, else an anomaly.
    pub fn for_bool(action: String, ok: bool, data: Json) -> (outcome: Outcome)
        ensures
            outcome.reports(action@, severity_of_flag(ok), data@),
    {
        if ok {
            Outcome::ok(action, data)
        } else {
            Outcome::anomaly(action, data)
        }
    }

    /// The outcome as the JSON value that is printed or sent.
    pub fn into_json(self) -> (json: Json)
        ensures
            json@ == outcome_model(self.action@, self.severity, self.generated_at@, self.data@),
    {
        let exit_code: u8 = exit_code_for_outcome(&self);
        let mut members: Vec<(String, Json)> = Vec::new();
        add_member(&mut members, "action", Json::Text(self.action));
        add_member(&mut members, "severity", Json::text(self.severity.as_str()));
        add_member(&mut members, "exit_code", Json::Number(exit_code as i64));
        add_member(&mut members, "generated_at", Json::Text(self.generated_at));
        add_member(&mut members, "data", self.data);
        let json = Json::object(members);
        assert(json@->Object_0 =~= outcome_model(
            self.action@,
            self.severity,
            self.generated_at@,
            self.data@,
        )->Object_0);
        json
    }
}

/// The exit code for a severity.
pub open spec fn exit_code_of(severity: Severity) -> u8 {
    match severity {
        Severity::Clear => 0,
        Severity::Repaired => 0,
        Severity::Anomaly => 2,
        Severity::Error => 3,
    }
}

/// The exit code of the process that monitoring pipelines branch on: 0 for clean, all clear
/// or repaired, 2 for an anomaly, 3 for an error.
pub fn exit_code_for_outcome(outcome: &Outcome) -> (code: u8)
    ensures
        code == exit_code_of(outcome.severity),
{
    match outcome.severity {
        Severity::Clear | Severity::Repaired => 0,
        Severity::Anomaly => 2,
        Severity::Error => 3,
    }
}

/// The exit code of a whole run: that of its outcome, or 3 where the doctor itself failed and
/// there is no outcome.
pub fn exit_code_for_run(outcome: Option<&Outcome>) -> (code: u8)
    ensures
        code == (match outcome {
            Some(o) => exit_code_of(o.severity),
            None => 3u8,
        }),
{
    match outcome {
        Some(o) => exit_code_for_outcome(o),
        None => 3,
    }
}

/// A run exits with 0 exactly when it is all clear or repaired, with 2 exactly on an anomaly
/// and with 3 exactly on an error, and with nothing else.
pub proof fn law_exit_code_tells_the_severity(severity: Severity)
    ensures
        exit_code_of(severity) == 0 <==> severity == Severity::Clear || severity
            == Severity::Repaired,
        exit_code_of(severity) == 2 <==> severity == Severity::Anomaly,
        exit_code_of(severity) == 3 <==> severity == Severity::Error,
{
}

/// A status outside the convention fails loud: monitoring sees an anomaly.
pub proof fn law_unknown_status_fails_loud(status: Seq<char>)
    requires
        status != "ok"@,
        status != "noop"@,
        status != "error"@,
    ensures
        severity_of_status(status) == Severity::Anomaly,
        exit_code_of(severity_of_status(status)) == 2,
{
}

/// A report says which action it is of, how the action ended, with which exit code, when, and
/// what came of it: each can be read back from its member.
pub proof fn law_report_members_read_back(
    action: Seq<char>,
    severity: Severity,
    generated_at: Seq<char>,
    data: JsonModel,
)
    ensures
        ({
            let members = outcome_model(action, severity, generated_at, data)->Object_0;
            &&& json::member(members, "action"@) == Some(JsonModel::Text(action))
            &&& json::member(members, "severity"@) == Some(
                JsonModel::Text(severity_name(severity)),
            )
            &&& json::member(members, "exit_code"@) == Some(
                JsonModel::Number(exit_code_of(severity) as int),
            )
            &&& json::member(members, "generated_at"@) == Some(JsonModel::Text(generated_at))
            &&& json::member(members, "data"@) == Some(data)
        }),
{
    reveal_strlit("action");
    reveal_strlit("severity");
    reveal_strlit("exit_code");
    reveal_strlit("generated_at");
    reveal_strlit("data");
    assert("action"@.len() == 6 && "severity"@.len() == 8 && "exit_code"@.len() == 9);
    assert("generated_at"@.len() == 12 && "data"@.len() == 4);
    reveal_with_fuel(json::member, 6);
    let members = outcome_model(action, severity, generated_at, data)->Object_0;
    assert(members.drop_first()[0] == members[1]);
    assert(members.drop_first().drop_first()[0] == members[2]);
    assert(members.drop_first().drop_first().drop_first()[0] == members[3]);
    assert(members.drop_first().drop_first().drop_first().drop_first()[0] == members[4]);
}

/// Different severities have different names in a report.
pub proof fn law_severity_names_differ(left: Severity, right: Severity)
    ensures
        severity_name(left) == severity_name(right) ==> left == right,
{
    reveal_strlit("ok");
    reveal_strlit("anomaly");
    reveal_strlit("repaired");
    reveal_strlit("error");
    assert("ok"@.len() == 2 && "anomaly"@.len() == 7);
    assert("repaired"@.len() == 8 && "error"@.len() == 5);
}

} // verus!
