//! The one-shot snapshot as JSON.

use vstd::prelude::*;
use vstd::view::View as _;

use crate::backend::{OperatorOverview, OverviewModel};
use crate::protocol::{
    method_names, PlatformAction, PlatformMethod, ResourceRecord, SessionRecord,
};
use crate::state::{coordinate_key, key_of};
use crate::text::decimal_text;

verus! {

/// A JSON value of `serde_json`.
#[verifier::external_type_specification]
#[verifier::external_body]
pub struct ExValue(serde_json::Value);

/// Why `serde_json` could not write or read a value.
#[verifier::external_type_specification]
#[verifier::external_body]
pub struct ExError(serde_json::Error);

/// What `serde_json::to_string` writes for a value.
pub uninterp spec fn json_text(value: serde_json::Value) -> Seq<char>;

/// A hexadecimal digit.
pub open spec fn hex_digit(value: int) -> char {
    if value < 10 {
        (48 + value) as u8 as char
    } else {
        (87 + value) as u8 as char
    }
}

/// How a character stands in a JSON text: quotes, backslashes and control characters are escaped.
pub open spec fn escaped(c: char) -> Seq<char> {
    if c == '"' {
        seq!['\\', '"']
    } else if c == '\\' {
        seq!['\\', '\\']
    } else if c as u32 == 8 {
        seq!['\\', 'b']
    } else if c as u32 == 9 {
        seq!['\\', 't']
    } else if c as u32 == 10 {
        seq!['\\', 'n']
    } else if c as u32 == 12 {
        seq!['\\', 'f']
    } else if c as u32 == 13 {
        seq!['\\', 'r']
    } else if (c as u32) < 32 {
        seq!['\\', 'u', '0', '0', hex_digit(c as int / 16), hex_digit(c as int % 16)]
    } else {
        seq![c]
    }
}

/// A text as a JSON string.
pub open spec fn quoted(text: Seq<char>) -> Seq<char> {
    seq!['"'] + text.map_values(|c: char| escaped(c)).flatten() + seq!['"']
}

/// Texts with commas between them.
pub open spec fn joined(parts: Seq<Seq<char>>) -> Seq<char>
    decreases parts.len(),
{
    if parts.len() == 0 {
        Seq::empty()
    } else if parts.len() == 1 {
        parts[0]
    } else {
        joined(parts.drop_last()) + ","@ + parts.last()
    }
}

/// A JSON array.
pub open spec fn array_text(items: Seq<Seq<char>>) -> Seq<char> {
    "["@ + joined(items) + "]"@
}

/// A JSON object, given its names and the text of each value.
pub open spec fn object_text(members: Seq<(Seq<char>, Seq<char>)>) -> Seq<char> {
    "{"@ + joined(
        members.map_values(|member: (Seq<char>, Seq<char>)| quoted(member.0) + ":"@ + member.1),
    ) + "}"@
}

/// A truth value in JSON.
pub open spec fn truth_text(value: bool) -> Seq<char> {
    if value {
        "true"@
    } else {
        "false"@
    }
}

/// A signed number in JSON.
pub open spec fn signed_text(value: int) -> Seq<char> {
    if value < 0 {
        "-"@ + decimal_text((-value) as nat)
    } else {
        decimal_text(value as nat)
    }
}

/// Whether two texts first differ at a place, and the left one is the smaller there.
pub open spec fn smaller_at(left: Seq<char>, right: Seq<char>, place: int) -> bool {
    &&& 0 <= place < left.len()
    &&& place < right.len()
    &&& left.take(place) == right.take(place)
    &&& left[place] < right[place]
}

/// Whether each name is smaller than those behind it and none begins another.
pub open spec fn ascends(names: Seq<Seq<char>>) -> bool {
    forall|i: int, j: int|
        0 <= i < j < names.len() ==> exists|place: int|
            smaller_at(#[trigger] names[i], #[trigger] names[j], place)
}

/// `serde_json::Value::String` holds a text, and is written as a JSON string with quotes,
/// backslashes and control characters escaped.
#[verifier::external_body]
fn text_value(text: &str) -> (value: serde_json::Value)
    ensures
        json_text(value) == quoted(text@),
{
    serde_json::Value::String(text.to_owned())
}

/// `serde_json::Value::from` an unsigned number, which is written in decimal digits.
#[verifier::external_body]
fn number_value(number: u64) -> (value: serde_json::Value)
    ensures
        json_text(value) == decimal_text(number as nat),
{
    serde_json::Value::from(number)
}

/// `serde_json::Value::from` a signed number, which is written in decimal digits behind its sign.
#[verifier::external_body]
fn signed_value(number: i64) -> (value: serde_json::Value)
    ensures
        json_text(value) == signed_text(number as int),
{
    serde_json::Value::from(number)
}

/// `serde_json::Value::Bool`, which is written as a word.
#[verifier::external_body]
fn truth_value(truth: bool) -> (value: serde_json::Value)
    ensures
        json_text(value) == truth_text(truth),
{
    serde_json::Value::Bool(truth)
}

/// `serde_json::Value::Null`, which is written as a word.
#[verifier::external_body]
fn null_value() -> (value: serde_json::Value)
    ensures
        json_text(value) == "null"@,
{
    serde_json::Value::Null
}

/// `serde_json::Value::Array`, which is written in brackets with commas between its values.
#[verifier::external_body]
fn array_value(items: Vec<serde_json::Value>) -> (value: serde_json::Value)
    ensures
        json_text(value) == array_text(
            items@.map_values(|item: serde_json::Value| json_text(item)),
        ),
{
    serde_json::Value::Array(items)
}

/// `serde_json::Value::Object`, which is written in braces with its members in the order of their
/// names. The names are given in that order, so each is written where it is given.
#[verifier::external_body]
fn object_value(members: Vec<(&'static str, serde_json::Value)>) -> (value: serde_json::Value)
    requires
        ascends(members@.map_values(|member: (&'static str, serde_json::Value)| member.0@)),
    ensures
        json_text(value) == object_text(
            members@.map_values(
                |member: (&'static str, serde_json::Value)| (member.0@, json_text(member.1)),
            ),
        ),
{
    serde_json::Value::Object(members.into_iter().map(|(name, value)| (name.to_owned(), value)).collect())
}

/// `serde_json::to_string` writes a value as one line of text. It fails only where the value's
/// own serialization fails or where a map has keys that are no strings, and a
/// `serde_json::Value` has neither.
#[verifier::external_body]
fn to_text(value: &serde_json::Value) -> (text: Result<String, serde_json::Error>)
    ensures
        text is Ok,
        text->Ok_0@ == json_text(*value),
{
    serde_json::to_string(value)
}

proof fn first_letter_decides(left: Seq<char>, right: Seq<char>)
    requires
        left.len() > 0,
        right.len() > 0,
        left[0] < right[0],
    ensures
        exists|place: int| smaller_at(left, right, place),
{
    assert(left.take(0) =~= right.take(0));
    assert(smaller_at(left, right, 0));
}

/// A resource in JSON.
pub open spec fn resource_text(record: ResourceRecord) -> Seq<char> {
    object_text(
        seq![
            ("authority"@, quoted(record.resource.authority@.name())),
            ("freshness"@, quoted(record.freshness.state@)),
            ("id"@, quoted(record.resource.id@)),
            ("kind"@, quoted(record.resource.kind@.name())),
            ("observed_at"@, signed_text(record.freshness.observed_at as int)),
            ("revision"@, decimal_text(record.freshness.revision as nat)),
            ("summary"@, quoted(record.summary@)),
        ],
    )
}

proof fn resource_names_ascend()
    ensures
        ascends(
            seq![
                "authority"@,
                "freshness"@,
                "id"@,
                "kind"@,
                "observed_at"@,
                "revision"@,
                "summary"@,
            ],
        ),
{
    reveal_strlit("authority");
    reveal_strlit("freshness");
    reveal_strlit("id");
    reveal_strlit("kind");
    reveal_strlit("observed_at");
    reveal_strlit("revision");
    reveal_strlit("summary");
    let names = seq![
        "authority"@,
        "freshness"@,
        "id"@,
        "kind"@,
        "observed_at"@,
        "revision"@,
        "summary"@,
    ];
    assert forall|i: int, j: int| 0 <= i < j < names.len() implies exists|place: int|
        smaller_at(#[trigger] names[i], #[trigger] names[j], place) by {
        first_letter_decides(names[i], names[j]);
    }
}

/// A resource as a JSON value.
pub fn resource_json(record: &ResourceRecord) -> (value: serde_json::Value)
    ensures
        json_text(value) == resource_text(*record),
{
    let mut members: Vec<(&'static str, serde_json::Value)> = Vec::new();
    members.push(("authority", text_value(record.resource.authority.as_str())));
    members.push(("freshness", text_value(record.freshness.state.as_str())));
    members.push(("id", text_value(record.resource.id.as_str())));
    members.push(("kind", text_value(record.resource.kind.as_str())));
    members.push(("observed_at", signed_value(record.freshness.observed_at)));
    members.push(("revision", number_value(record.freshness.revision)));
    members.push(("summary", text_value(record.summary.as_str())));
    proof {
        resource_names_ascend();
        assert(members@.map_values(|member: (&'static str, serde_json::Value)| member.0@) =~= seq![
            "authority"@,
            "freshness"@,
            "id"@,
            "kind"@,
            "observed_at"@,
            "revision"@,
            "summary"@,
        ]);
        assert(members@.map_values(
            |member: (&'static str, serde_json::Value)| (member.0@, json_text(member.1)),
        ) =~= seq![
            ("authority"@, quoted(record.resource.authority@.name())),
            ("freshness"@, quoted(record.freshness.state@)),
            ("id"@, quoted(record.resource.id@)),
            ("kind"@, quoted(record.resource.kind@.name())),
            ("observed_at"@, signed_text(record.freshness.observed_at as int)),
            ("revision"@, decimal_text(record.freshness.revision as nat)),
            ("summary"@, quoted(record.summary@)),
        ]);
    }
    object_value(members)
}

/// A session in JSON.
pub open spec fn session_text(record: SessionRecord) -> Seq<char> {
    object_text(
        seq![
            ("attachable"@, truth_text(record.attachable)),
            ("controllable"@, truth_text(record.controllable)),
            (
                "run"@,
                match record.run {
                    Some(run) => quoted(key_of(run@)),
                    None => "null"@,
                },
            ),
            ("session"@, resource_text(record.session)),
        ],
    )
}

proof fn session_names_ascend()
    ensures
        ascends(seq!["attachable"@, "controllable"@, "run"@, "session"@]),
{
    reveal_strlit("attachable");
    reveal_strlit("controllable");
    reveal_strlit("run");
    reveal_strlit("session");
    let names = seq!["attachable"@, "controllable"@, "run"@, "session"@];
    assert forall|i: int, j: int| 0 <= i < j < names.len() implies exists|place: int|
        smaller_at(#[trigger] names[i], #[trigger] names[j], place) by {
        first_letter_decides(names[i], names[j]);
    }
}

fn session_json(record: &SessionRecord) -> (value: serde_json::Value)
    ensures
        json_text(value) == session_text(*record),
{
    let run = match &record.run {
        Some(run) => text_value(coordinate_key(run).as_str()),
        None => null_value(),
    };
    let mut members: Vec<(&'static str, serde_json::Value)> = Vec::new();
    members.push(("attachable", truth_value(record.attachable)));
    members.push(("controllable", truth_value(record.controllable)));
    members.push(("run", run));
    members.push(("session", resource_json(&record.session)));
    proof {
        session_names_ascend();
        assert(members@.map_values(|member: (&'static str, serde_json::Value)| member.0@) =~= seq![
            "attachable"@,
            "controllable"@,
            "run"@,
            "session"@,
        ]);
        assert(members@.map_values(
            |member: (&'static str, serde_json::Value)| (member.0@, json_text(member.1)),
        ) =~= seq![
            ("attachable"@, truth_text(record.attachable)),
            ("controllable"@, truth_text(record.controllable)),
            (
                "run"@,
                match record.run {
                    Some(run) => quoted(key_of(run@)),
                    None => "null"@,
                },
            ),
            ("session"@, resource_text(record.session)),
        ]);
    }
    object_value(members)
}

fn methods_json(methods: &Vec<PlatformMethod>) -> (value: serde_json::Value)
    ensures
        json_text(value) == array_text(
            method_names(methods@).map_values(|name: Seq<char>| quoted(name)),
        ),
{
    let mut items: Vec<serde_json::Value> = Vec::new();
    let mut at: usize = 0;
    while at < methods.len()
        invariant
            at <= methods@.len(),
            items@.len() == at,
            forall|i: int|
                0 <= i < at ==> json_text(#[trigger] items@[i]) == quoted(methods@[i].name()),
        decreases methods@.len() - at,
    {
        items.push(text_value(methods[at].as_str()));
        at += 1;
    }
    proof {
        assert(items@.map_values(|item: serde_json::Value| json_text(item))
            =~= method_names(methods@).map_values(|name: Seq<char>| quoted(name)));
    }
    array_value(items)
}

fn actions_json(actions: &Vec<PlatformAction>) -> (value: serde_json::Value)
    ensures
        json_text(value) == array_text(
            actions@.map_values(|action: PlatformAction| quoted(action.name())),
        ),
{
    let mut items: Vec<serde_json::Value> = Vec::new();
    let mut at: usize = 0;
    while at < actions.len()
        invariant
            at <= actions@.len(),
            items@.len() == at,
            forall|i: int|
                0 <= i < at ==> json_text(#[trigger] items@[i]) == quoted(actions@[i].name()),
        decreases actions@.len() - at,
    {
        items.push(text_value(actions[at].as_str()));
        at += 1;
    }
    proof {
        assert(items@.map_values(|item: serde_json::Value| json_text(item))
            =~= actions@.map_values(|action: PlatformAction| quoted(action.name())));
    }
    array_value(items)
}

fn resources_json(records: &Vec<ResourceRecord>) -> (value: serde_json::Value)
    ensures
        json_text(value) == array_text(
            records@.map_values(|record: ResourceRecord| resource_text(record)),
        ),
{
    let mut items: Vec<serde_json::Value> = Vec::new();
    let mut at: usize = 0;
    while at < records.len()
        invariant
            at <= records@.len(),
            items@.len() == at,
            forall|i: int|
                0 <= i < at ==> json_text(#[trigger] items@[i]) == resource_text(records@[i]),
        decreases records@.len() - at,
    {
        items.push(resource_json(&records[at]));
        at += 1;
    }
    proof {
        assert(items@.map_values(|item: serde_json::Value| json_text(item))
            =~= records@.map_values(|record: ResourceRecord| resource_text(record)));
    }
    array_value(items)
}

fn sessions_json(records: &Vec<SessionRecord>) -> (value: serde_json::Value)
    ensures
        json_text(value) == array_text(
            records@.map_values(|record: SessionRecord| session_text(record)),
        ),
{
    let mut items: Vec<serde_json::Value> = Vec::new();
    let mut at: usize = 0;
    while at < records.len()
        invariant
            at <= records@.len(),
            items@.len() == at,
            forall|i: int|
                0 <= i < at ==> json_text(#[trigger] items@[i]) == session_text(records@[i]),
        decreases records@.len() - at,
    {
        items.push(session_json(&records[at]));
        at += 1;
    }
    proof {
        assert(items@.map_values(|item: serde_json::Value| json_text(item))
            =~= records@.map_values(|record: SessionRecord| session_text(record)));
    }
    array_value(items)
}

/// The names and values of an overview in JSON.
pub open spec fn overview_members(overview: OverviewModel) -> Seq<(Seq<char>, Seq<char>)> {
    seq![
        (
            "actions"@,
            array_text(
                overview.actions.map_values(|action: PlatformAction| quoted(action.name())),
            ),
        ),
        ("cursor"@, decimal_text(overview.cursor.sequence as nat)),
        ("methods"@, array_text(overview.methods.map_values(|name: Seq<char>| quoted(name)))),
        ("protocol"@, quoted(overview.protocol)),
        (
            "resources"@,
            array_text(
                overview.resources.map_values(|record: ResourceRecord| resource_text(record)),
            ),
        ),
        ("schema"@, quoted(overview.schema)),
        (
            "sessions"@,
            array_text(
                overview.sessions.map_values(|record: SessionRecord| session_text(record)),
            ),
        ),
    ]
}

/// An overview in JSON.
pub open spec fn overview_text(overview: OverviewModel) -> Seq<char> {
    object_text(overview_members(overview))
}

proof fn overview_names_ascend()
    ensures
        ascends(
            seq![
                "actions"@,
                "cursor"@,
                "methods"@,
                "protocol"@,
                "resources"@,
                "schema"@,
                "sessions"@,
            ],
        ),
{
    reveal_strlit("actions");
    reveal_strlit("cursor");
    reveal_strlit("methods");
    reveal_strlit("protocol");
    reveal_strlit("resources");
    reveal_strlit("schema");
    reveal_strlit("sessions");
    let names = seq![
        "actions"@,
        "cursor"@,
        "methods"@,
        "protocol"@,
        "resources"@,
        "schema"@,
        "sessions"@,
    ];
    assert forall|i: int, j: int| 0 <= i < j < names.len() implies exists|place: int|
        smaller_at(#[trigger] names[i], #[trigger] names[j], place) by {
        if i == 5 {
            assert("schema"@.take(1) =~= "sessions"@.take(1));
            assert(smaller_at(names[i], names[j], 1));
        } else {
            first_letter_decides(names[i], names[j]);
        }
    }
}

/// An overview as a JSON value.
pub fn overview_json(overview: &OperatorOverview) -> (value: serde_json::Value)
    ensures
        json_text(value) == overview_text(overview@),
{
    let mut members: Vec<(&'static str, serde_json::Value)> = Vec::new();
    members.push(("actions", actions_json(&overview.actions)));
    members.push(("cursor", number_value(overview.cursor.sequence)));
    members.push(("methods", methods_json(&overview.capabilities.methods)));
    members.push(("protocol", text_value(overview.capabilities.protocol.as_str())));
    members.push(("resources", resources_json(&overview.resources)));
    members.push(("schema", text_value(overview.capabilities.schema.as_str())));
    members.push(("sessions", sessions_json(&overview.sessions)));
    proof {
        overview_names_ascend();
        assert(members@.map_values(|member: (&'static str, serde_json::Value)| member.0@) =~= seq![
            "actions"@,
            "cursor"@,
            "methods"@,
            "protocol"@,
            "resources"@,
            "schema"@,
            "sessions"@,
        ]);
        assert(members@.map_values(
            |member: (&'static str, serde_json::Value)| (member.0@, json_text(member.1)),
        ) =~= overview_members(overview@));
    }
    object_value(members)
}

/// Why no JSON was written.
#[derive(Clone, Copy, Debug, PartialEq, Eq, Structural)]
pub enum JsonError {
    /// The value could not be written.
    Unwritable,
}

/// The one-shot snapshot: an overview as one line of JSON.
pub fn overview_report(overview: &OperatorOverview) -> (report: Result<String, JsonError>)
    ensures
        report is Ok,
        report->Ok_0@ == overview_text(overview@),
{
    match to_text(&overview_json(overview)) {
        Ok(text) => Ok(text),
        Err(_) => Err(JsonError::Unwritable),
    }
}

} // verus!
