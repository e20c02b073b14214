//! JSON values as the doctor holds them.

use vstd::prelude::*;

#[allow(unused_imports)]
use crate::extract;
use crate::text::same_text;

verus! {

/// Whether a byte sequence is the text of one JSON value, as `serde_json` reads it.
pub uninterp spec fn json_valid(text: Seq<u8>) -> bool;

/// The string member named `key` of the JSON object that `text` holds, as `serde_json` reads it.
pub uninterp spec fn json_text_member(text: Seq<u8>, key: Seq<char>) -> Option<Seq<char>>;

/// The boolean member named `key` of the JSON object that `text` holds, as `serde_json` reads it.
pub uninterp spec fn json_flag_member(text: Seq<u8>, key: Seq<char>) -> Option<bool>;

/// The characters of an optional string.
pub open spec fn text_view(text: Option<String>) -> Option<Seq<char>> {
    match text {
        Some(t) => Some(t@),
        None => None,
    }
}

/// `"` in ASCII.
pub const QUOTE: u8 = 0x22;

/// `\` in ASCII.
pub const BACKSLASH: u8 = 0x5c;

/// Where in a JSON text a byte stands.
pub enum Place {
    /// Outside of any string.
    Outside,
    /// Inside a string.
    Inside,
    /// Inside a string, right behind a backslash that escapes what follows.
    Escaped,
}

/// Where the byte at `at` stands, going by the quotes and backslashes before it.
pub open spec fn place(text: Seq<u8>, at: int) -> Place
    decreases at,
{
    if at <= 0 {
        Place::Outside
    } else {
        match place(text, at - 1) {
            Place::Outside => if text[at - 1] == QUOTE {
                Place::Inside
            } else {
                Place::Outside
            },
            Place::Inside => if text[at - 1] == QUOTE {
                Place::Outside
            } else if text[at - 1] == BACKSLASH {
                Place::Escaped
            } else {
                Place::Inside
            },
            Place::Escaped => Place::Inside,
        }
    }
}

/// No key and no string of a JSON text holds a bracket.
pub open spec fn strings_hold_no_bracket(text: Seq<u8>) -> bool {
    forall|i: int|
        0 <= i < text.len() && extract::is_bracket(#[trigger] text[i]) ==> place(text, i)
            is Outside
}

/// What is read of a JSON text: one string member and one boolean member.
#[derive(Debug)]
pub struct JsonFacts {
    pub text: Option<String>,
    pub flag: Option<bool>,
}

/// Calls `serde_json::from_slice` for a `serde_json::Value`, then `Value::get` with each key,
/// `Value::as_str` on what the first key finds and `Value::as_bool` on what the second finds.
/// The claim: the outcome depends on the text and on the key alone. There is a result exactly
/// when the bytes are one JSON value with nothing but white space around it; the members are
/// absent where the value is no object, lacks the key, or holds another type there. Where there
/// is a result, brackets outside of strings come in nested pairs: in a text that runs from one
/// bracket to its counterpart and whose strings hold none, the last bracket closes the first.
#[verifier::external_body]
fn read_json(text: &[u8], text_key: &str, flag_key: &str) -> (facts: Option<JsonFacts>)
    ensures
        facts is Some <==> json_valid(text@),
        facts matches Some(f) ==> text_view(f.text) == json_text_member(text@, text_key@),
        facts matches Some(f) ==> f.flag == json_flag_member(text@, flag_key@),
        facts is Some && extract::is_bracketed(text@) && strings_hold_no_bracket(text@)
            ==> extract::balanced(text@, 0, text@.len() - 1),
{
    match serde_json::from_slice::<serde_json::Value>(text) {
        Ok(value) => Some(JsonFacts {
            text: value.get(text_key).and_then(|v| v.as_str()).map(|v| v.to_string()),
            flag: value.get(flag_key).and_then(|v| v.as_bool()),
        }),
        Err(_) => None,
    }
}

/// A JSON text that the parser accepted, with the two members that decide an outcome.
#[derive(Debug)]
pub struct Document {
    text: Vec<u8>,
    status: Option<String>,
    ok: Option<bool>,
}

impl View for Document {
    type V = Seq<u8>;

    closed spec fn view(&self) -> Seq<u8> {
        self.text@
    }
}

impl Document {
    #[verifier::type_invariant]
    spec fn parsed(self) -> bool {
        &&& json_valid(self.text@)
        &&& text_view(self.status) == json_text_member(self.text@, "status"@)
        &&& self.ok == json_flag_member(self.text@, "ok"@)
    }

    /// Parses a JSON text; `None` exactly when it is not valid JSON.
    ///
    /// An object or array that parses, and whose keys and strings hold no bracket, is found
    /// again when it is printed: whatever stands before it, and whatever without a closing
    /// bracket stands behind it, it is the report of that output.
    pub fn parse(text: Vec<u8>) -> (document: Option<Document>)
        ensures
            document is Some <==> json_valid(text@),
            document matches Some(d) ==> d@ == text@,
            document is Some && extract::is_bracketed(text@) && strings_hold_no_bracket(text@)
                ==> extract::survives_noise(text@),
    {
        let facts = read_json(text.as_slice(), "status", "ok");
        proof {
            if facts is Some && extract::is_bracketed(text@) && strings_hold_no_bracket(text@) {
                assert(text@.subrange(0, text@.len() as int) =~= text@);
                extract::law_accepted_text_survives_noise(text@);
            }
        }
        match facts {
            Some(facts) => Some(Document { text, status: facts.text, ok: facts.flag }),
            None => None,
        }
    }

    /// The JSON text, byte for byte.
    pub fn text(&self) -> (text: &Vec<u8>)
        ensures
            text@ == self@,
            json_valid(self@),
    {
        proof {
            use_type_invariant(self);
        }
        &self.text
    }

    /// The string under `status`.
    pub fn status(&self) -> (status: Option<String>)
        ensures
            text_view(status) == json_text_member(self@, "status"@),
    {
        proof {
            use_type_invariant(self);
        }
        match &self.status {
            Some(s) => Some(s.clone()),
            None => None,
        }
    }

    /// The boolean under `ok`.
    pub fn ok(&self) -> (ok: Option<bool>)
        ensures
            ok == json_flag_member(self@, "ok"@),
    {
        proof {
            use_type_invariant(self);
        }
        self.ok
    }
}

/// A JSON value: one that the library builds, or one that a playbook printed.
#[derive(Debug)]
pub enum Json {
    Text(String),
    Bool(bool),
    Number(i64),
    Array(Vec<Json>),
    Object(Vec<(String, Json)>),
    Document(Document),
}

/// What a JSON value is, as a mathematical value. A document is its text.
pub enum JsonModel {
    Text(Seq<char>),
    Bool(bool),
    Number(int),
    Array(Seq<JsonModel>),
    Object(Seq<(Seq<char>, JsonModel)>),
    Document(Seq<u8>),
}

impl View for Json {
    type V = JsonModel;

    open spec fn view(&self) -> JsonModel {
        model_of(*self)
    }
}

/// The value that a `Json` stands for.
pub open spec fn model_of(json: Json) -> JsonModel
    decreases json,
{
    match json {
        Json::Text(text) => JsonModel::Text(text@),
        Json::Bool(flag) => JsonModel::Bool(flag),
        Json::Number(n) => JsonModel::Number(n as int),
        Json::Array(items) => JsonModel::Array(
            Seq::new(
                items@.len(),
                |i: int|
                    if 0 <= i < items@.len() {
                        model_of(items@[i])
                    } else {
                        arbitrary()
                    },
            ),
        ),
        Json::Object(members) => JsonModel::Object(
            Seq::new(
                members@.len(),
                |i: int|
                    if 0 <= i < members@.len() {
                        (members@[i].0@, model_of(members@[i].1))
                    } else {
                        arbitrary()
                    },
            ),
        ),
        Json::Document(document) => JsonModel::Document(document@),
    }
}

/// The members of an object, as mathematical values.
pub open spec fn members_view(members: Seq<(String, Json)>) -> Seq<(Seq<char>, JsonModel)> {
    members.map_values(|m: (String, Json)| (m.0@, m.1@))
}

/// The elements of an array, as mathematical values.
pub open spec fn items_view(items: Seq<Json>) -> Seq<JsonModel> {
    items.map_values(|item: Json| item@)
}

/// The value of the first member with the given name.
pub open spec fn member(members: Seq<(Seq<char>, JsonModel)>, name: Seq<char>) -> Option<
    JsonModel,
>
    decreases members.len(),
{
    if members.len() == 0 {
        None
    } else if members[0].0 == name {
        Some(members[0].1)
    } else {
        member(members.drop_first(), name)
    }
}

/// The string under `status` of a JSON value.
pub open spec fn status_of(value: JsonModel) -> Option<Seq<char>> {
    match value {
        JsonModel::Object(members) => match member(members, "status"@) {
            Some(JsonModel::Text(text)) => Some(text),
            _ => None,
        },
        JsonModel::Document(text) => json_text_member(text, "status"@),
        _ => None,
    }
}

/// The boolean under `ok` of a JSON value.
pub open spec fn ok_of(value: JsonModel) -> Option<bool> {
    match value {
        JsonModel::Object(members) => match member(members, "ok"@) {
            Some(JsonModel::Bool(flag)) => Some(flag),
            _ => None,
        },
        JsonModel::Document(text) => json_flag_member(text, "ok"@),
        _ => None,
    }
}

impl Json {
    /// A JSON string.
    pub fn text(text: &str) -> (json: Json)
        ensures
            json@ == JsonModel::Text(text@),
    {
        Json::Text(text.to_owned())
    }

    /// A JSON array of the given elements.
    pub fn array(items: Vec<Json>) -> (json: Json)
        ensures
            json@ == JsonModel::Array(items_view(items@)),
    {
        let json = Json::Array(items);
        assert(json@->Array_0 =~= items_view(items@));
        json
    }

    /// A JSON object of the given members.
    pub fn object(members: Vec<(String, Json)>) -> (json: Json)
        ensures
            json@ == JsonModel::Object(members_view(members@)),
    {
        let json = Json::Object(members);
        assert(json@->Object_0 =~= members_view(members@));
        json
    }

    /// The string under `status`, where the value is an object that has one.
    pub fn status(&self) -> (status: Option<String>)
        ensures
            text_view(status) == status_of(self@),
    {
        match self {
            Json::Object(members) => {
                assert(self@->Object_0 =~= members_view(members@));
                match find_member(members, "status") {
                    Some(Json::Text(text)) => Some(text.clone()),
                    _ => None,
                }
            },
            Json::Document(document) => document.status(),
            _ => None,
        }
    }

    /// The boolean under `ok`, where the value is an object that has one.
    pub fn ok(&self) -> (ok: Option<bool>)
        ensures
            ok == ok_of(self@),
    {
        match self {
            Json::Object(members) => {
                assert(self@->Object_0 =~= members_view(members@));
                match find_member(members, "ok") {
                    Some(Json::Bool(flag)) => Some(*flag),
                    _ => None,
                }
            },
            Json::Document(document) => document.ok(),
            _ => None,
        }
    }
}

/// Finds the first member with the given name.
fn find_member<'a>(members: &'a Vec<(String, Json)>, name: &str) -> (found: Option<&'a Json>)
    ensures
        match found {
            Some(json) => member(members_view(members@), name@) == Some(json@),
            None => member(members_view(members@), name@) is None,
        },
{
    let ghost all = members_view(members@);
    assert(all.skip(0) =~= all);
    let mut i: usize = 0;
    while i < members.len()
        invariant
            i <= members@.len(),
            all == members_view(members@),
            member(all, name@) == member(all.skip(i as int), name@),
        decreases members@.len() - i,
    {
        assert(all.skip(i as int)[0] == all[i as int]);
        if same_text(members[i].0.as_str(), name) {
            return Some(&members[i].1);
        }
        assert(all.skip(i as int).drop_first() =~= all.skip(i as int + 1));
        i = i + 1;
    }
    None
}

/// Adds a member to an object under construction.
pub(crate) fn add_member(members: &mut Vec<(String, Json)>, name: &str, value: Json)
    ensures
        members_view(final(members)@) == members_view(old(members)@).push((name@, value@)),
{
    members.push((name.to_owned(), value));
    assert(members_view(members@) =~= members_view(old(members)@).push((name@, value@)));
}

/// Adds an element to an array under construction.
pub(crate) fn add_item(items: &mut Vec<Json>, value: Json)
    ensures
        items_view(final(items)@) == items_view(old(items)@).push(value@),
{
    items.push(value);
    assert(items_view(items@) =~= items_view(old(items)@).push(value@));
}

} // verus!
