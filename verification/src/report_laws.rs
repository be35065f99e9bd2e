//! What the one-shot snapshot holds, said of the text that is written.

use vstd::prelude::*;
use vstd::view::View as _;

use crate::backend::OverviewModel;
use crate::json::{
    array_text, escaped, hex_digit, joined, object_text, overview_members, overview_text, quoted,
    resource_text, session_text, signed_text,
};
use crate::protocol::{PlatformAction, ResourceRecord, SessionRecord};
use crate::state::key_of;
use crate::text::{contains_text, decimal_text, stands_at};

verus! {

/// Whether a text holds a member of that name with that value.
pub open spec fn has_member(text: Seq<char>, name: Seq<char>, value: Seq<char>) -> bool {
    contains_text(text, quoted(name) + ":"@ + value)
}

proof fn joined_part_stands(parts: Seq<Seq<char>>, at: int)
    requires
        0 <= at < parts.len(),
    ensures
        stands_at(joined(parts), parts[at], joined(parts.take(at + 1)).len() - parts[at].len()),
        at > 0 ==> joined(parts.take(at + 1)).len() == joined(parts.take(at)).len() + 1
            + parts[at].len(),
        joined(parts.take(at + 1)).len() <= joined(parts).len(),
    decreases parts.len(),
{
    reveal_strlit(",");
    let whole = joined(parts);
    let upto = parts.take(at + 1);
    assert(upto.drop_last() =~= parts.take(at));
    assert(upto.last() == parts[at]);
    if at == parts.len() - 1 {
        assert(upto =~= parts);
        let start = whole.len() - parts[at].len();
        assert(whole.subrange(start, start + parts[at].len()) =~= parts[at]);
    } else {
        let shorter = parts.drop_last();
        joined_part_stands(shorter, at);
        assert(shorter.take(at + 1) =~= upto);
        assert(shorter[at] == parts[at]);
        let start = joined(upto).len() - parts[at].len();
        assert(whole.subrange(start, start + parts[at].len()) =~= joined(shorter).subrange(
            start,
            start + parts[at].len(),
        ));
    }
}

proof fn joined_parts_follow(parts: Seq<Seq<char>>, first: int, second: int)
    requires
        0 <= first < second < parts.len(),
    ensures
        joined(parts.take(first + 1)).len() <= joined(parts.take(second)).len(),
{
    let upto = parts.take(second);
    joined_part_stands(upto, first);
    assert(upto.take(first + 1) =~= parts.take(first + 1));
}

proof fn shifted(before: Seq<char>, text: Seq<char>, after: Seq<char>, part: Seq<char>, at: int)
    requires
        stands_at(text, part, at),
    ensures
        stands_at(before + text + after, part, before.len() + at),
{
    let whole = before + text + after;
    let start = before.len() + at;
    assert(whole.subrange(start, start + part.len()) =~= text.subrange(at, at + part.len()));
}

/// The items of an array stand in its text in their order, each behind the end of the one before.
pub proof fn items_are_written_in_order(items: Seq<Seq<char>>, first: int, second: int) -> (places: (
    int,
    int,
))
    requires
        0 <= first < second < items.len(),
    ensures
        stands_at(array_text(items), items[first], places.0),
        stands_at(array_text(items), items[second], places.1),
        places.0 + items[first].len() < places.1,
{
    reveal_strlit("[");
    joined_part_stands(items, first);
    joined_part_stands(items, second);
    joined_parts_follow(items, first, second);
    let first_at = joined(items.take(first + 1)).len() - items[first].len();
    let second_at = joined(items.take(second + 1)).len() - items[second].len();
    shifted("["@, joined(items), "]"@, items[first], first_at);
    shifted("["@, joined(items), "]"@, items[second], second_at);
    (1 + first_at, 1 + second_at)
}

/// Every item of an array stands in its text.
pub proof fn items_are_written(items: Seq<Seq<char>>, at: int)
    requires
        0 <= at < items.len(),
    ensures
        contains_text(array_text(items), items[at]),
{
    joined_part_stands(items, at);
    let start = joined(items.take(at + 1)).len() - items[at].len();
    shifted("["@, joined(items), "]"@, items[at], start);
}

/// Every member of an object stands in its text under its name.
pub proof fn members_are_written(members: Seq<(Seq<char>, Seq<char>)>, at: int)
    requires
        0 <= at < members.len(),
    ensures
        has_member(object_text(members), members[at].0, members[at].1),
{
    let parts = members.map_values(
        |member: (Seq<char>, Seq<char>)| quoted(member.0) + ":"@ + member.1,
    );
    joined_part_stands(parts, at);
    let start = joined(parts.take(at + 1)).len() - parts[at].len();
    shifted("{"@, joined(parts), "}"@, parts[at], start);
}

proof fn contained_in_contained(whole: Seq<char>, middle: Seq<char>, part: Seq<char>)
    requires
        contains_text(whole, middle),
        contains_text(middle, part),
    ensures
        contains_text(whole, part),
{
    let outer = choose|at: int| stands_at(whole, middle, at);
    let inner = choose|at: int| stands_at(middle, part, at);
    assert(whole.subrange(outer + inner, outer + inner + part.len()) =~= whole.subrange(
        outer,
        outer + middle.len(),
    ).subrange(inner, inner + part.len()));
    assert(stands_at(whole, part, outer + inner));
}

proof fn member_value_is_contained(text: Seq<char>, name: Seq<char>, value: Seq<char>)
    requires
        has_member(text, name, value),
    ensures
        contains_text(text, value),
{
    let head = quoted(name) + ":"@;
    let member = head + value;
    assert(member.subrange(head.len() as int, member.len() as int) =~= value);
    assert(stands_at(member, value, head.len() as int));
    contained_in_contained(text, member, value);
}

/// A resource is written with its authority, its kind, its identity, its freshness, when it was
/// seen, its revision and its summary, each under its own name.
pub proof fn resource_is_written_in_full(record: ResourceRecord)
    ensures
        ({
            let text = resource_text(record);
            &&& has_member(text, "authority"@, quoted(record.resource.authority@.name()))
            &&& has_member(text, "kind"@, quoted(record.resource.kind@.name()))
            &&& has_member(text, "id"@, quoted(record.resource.id@))
            &&& has_member(text, "freshness"@, quoted(record.freshness.state@))
            &&& record.freshness.observed_at >= 0 ==> has_member(
                text,
                "observed_at"@,
                decimal_text(record.freshness.observed_at as nat),
            )
            &&& record.freshness.observed_at < 0 ==> has_member(
                text,
                "observed_at"@,
                "-"@ + decimal_text((-record.freshness.observed_at) as nat),
            )
            &&& has_member(text, "revision"@, decimal_text(record.freshness.revision as nat))
            &&& has_member(text, "summary"@, quoted(record.summary@))
        }),
{
    let members = seq![
        ("authority"@, quoted(record.resource.authority@.name())),
        ("freshness"@, quoted(record.freshness.state@)),
        ("id"@, quoted(record.resource.id@)),
        ("kind"@, quoted(record.resource.kind@.name())),
        ("observed_at"@, signed_text(record.freshness.observed_at as int)),
        ("revision"@, decimal_text(record.freshness.revision as nat)),
        ("summary"@, quoted(record.summary@)),
    ];
    members_are_written(members, 0);
    members_are_written(members, 1);
    members_are_written(members, 2);
    members_are_written(members, 3);
    members_are_written(members, 4);
    members_are_written(members, 5);
    members_are_written(members, 6);
}

/// A session is written with what it allows, with the coordinate of its run or the word for none,
/// and with its own resource.
pub proof fn session_is_written_in_full(record: SessionRecord)
    ensures
        ({
            let text = session_text(record);
            &&& record.attachable ==> has_member(text, "attachable"@, "true"@)
            &&& !record.attachable ==> has_member(text, "attachable"@, "false"@)
            &&& record.controllable ==> has_member(text, "controllable"@, "true"@)
            &&& !record.controllable ==> has_member(text, "controllable"@, "false"@)
            &&& record.run is None ==> has_member(text, "run"@, "null"@)
            &&& record.run matches Some(run) ==> has_member(
                text,
                "run"@,
                quoted(run@.authority.name() + "/"@ + run@.kind.name() + "/"@ + run@.id),
            )
            &&& has_member(text, "session"@, resource_text(record.session))
        }),
{
    let members = seq![
        ("attachable"@, crate::json::truth_text(record.attachable)),
        ("controllable"@, crate::json::truth_text(record.controllable)),
        (
            "run"@,
            match record.run {
                Some(run) => quoted(key_of(run@)),
                None => "null"@,
            },
        ),
        ("session"@, resource_text(record.session)),
    ];
    members_are_written(members, 0);
    members_are_written(members, 1);
    members_are_written(members, 2);
    members_are_written(members, 3);
}

/// The snapshot tells which protocol and schema are spoken and where the events are.
pub proof fn snapshot_tells_what_is_spoken(overview: OverviewModel)
    ensures
        has_member(overview_text(overview), "protocol"@, quoted(overview.protocol)),
        has_member(overview_text(overview), "schema"@, quoted(overview.schema)),
        has_member(
            overview_text(overview),
            "cursor"@,
            decimal_text(overview.cursor.sequence as nat),
        ),
{
    let members = overview_members(overview);
    members_are_written(members, 1);
    members_are_written(members, 3);
    members_are_written(members, 5);
}

/// Every resource of the overview stands in the snapshot, and so does every session, every method
/// and every action.
pub proof fn snapshot_leaves_nothing_out(
    overview: OverviewModel,
    resource: int,
    session: int,
    method: int,
    action: int,
)
    ensures
        0 <= resource < overview.resources.len() ==> contains_text(
            overview_text(overview),
            resource_text(overview.resources[resource]),
        ),
        0 <= session < overview.sessions.len() ==> contains_text(
            overview_text(overview),
            session_text(overview.sessions[session]),
        ),
        0 <= method < overview.methods.len() ==> contains_text(
            overview_text(overview),
            quoted(overview.methods[method]),
        ),
        0 <= action < overview.actions.len() ==> contains_text(
            overview_text(overview),
            quoted(overview.actions[action].name()),
        ),
{
    let text = overview_text(overview);
    let members = overview_members(overview);
    if 0 <= resource < overview.resources.len() {
        let items = overview.resources.map_values(|record: ResourceRecord| resource_text(record));
        items_are_written(items, resource);
        members_are_written(members, 4);
        member_value_is_contained(text, "resources"@, array_text(items));
        contained_in_contained(text, array_text(items), items[resource]);
    }
    if 0 <= session < overview.sessions.len() {
        let items = overview.sessions.map_values(|record: SessionRecord| session_text(record));
        items_are_written(items, session);
        members_are_written(members, 6);
        member_value_is_contained(text, "sessions"@, array_text(items));
        contained_in_contained(text, array_text(items), items[session]);
    }
    if 0 <= method < overview.methods.len() {
        let items = overview.methods.map_values(|name: Seq<char>| quoted(name));
        items_are_written(items, method);
        members_are_written(members, 2);
        member_value_is_contained(text, "methods"@, array_text(items));
        contained_in_contained(text, array_text(items), items[method]);
    }
    if 0 <= action < overview.actions.len() {
        let items = overview.actions.map_values(|action: PlatformAction| quoted(action.name()));
        items_are_written(items, action);
        members_are_written(members, 0);
        member_value_is_contained(text, "actions"@, array_text(items));
        contained_in_contained(text, array_text(items), items[action]);
    }
}

proof fn hex_digits_differ(left: int, right: int)
    requires
        0 <= left < 16,
        0 <= right < 16,
        hex_digit(left) == hex_digit(right),
    ensures
        left == right,
{
}

proof fn escapes_differ(left: char, right: char, left_rest: Seq<char>, right_rest: Seq<char>)
    requires
        escaped(left) + left_rest == escaped(right) + right_rest,
    ensures
        left == right,
        left_rest == right_rest,
{
    let one = escaped(left) + left_rest;
    let other = escaped(right) + right_rest;
    assert(one[0] == escaped(left)[0]);
    assert(other[0] == escaped(right)[0]);
    if escaped(left).len() >= 2 && escaped(right).len() >= 2 {
        assert(one[1] == escaped(left)[1]);
        assert(other[1] == escaped(right)[1]);
        if escaped(left).len() == 6 && escaped(right).len() == 6 {
            assert(one[4] == escaped(left)[4]);
            assert(other[4] == escaped(right)[4]);
            assert(one[5] == escaped(left)[5]);
            assert(other[5] == escaped(right)[5]);
            hex_digits_differ(left as int / 16, right as int / 16);
            hex_digits_differ(left as int % 16, right as int % 16);
        }
    }
    assert(left == right);
    assert(left_rest =~= one.skip(escaped(left).len() as int));
    assert(right_rest =~= other.skip(escaped(right).len() as int));
}

proof fn escaped_texts_differ(left: Seq<char>, right: Seq<char>)
    requires
        left.map_values(|c: char| escaped(c)).flatten() == right.map_values(
            |c: char| escaped(c),
        ).flatten(),
    ensures
        left == right,
    decreases left.len(),
{
    let lefts = left.map_values(|c: char| escaped(c));
    let rights = right.map_values(|c: char| escaped(c));
    reveal_with_fuel(Seq::flatten, 2);
    if left.len() == 0 {
        if right.len() > 0 {
            assert(rights.flatten().len() >= escaped(right[0]).len());
        }
        assert(left =~= right);
    } else if right.len() == 0 {
        assert(lefts.flatten().len() >= escaped(left[0]).len());
    } else {
        let left_tail = left.drop_first();
        let right_tail = right.drop_first();
        assert(lefts.drop_first() =~= left_tail.map_values(|c: char| escaped(c)));
        assert(rights.drop_first() =~= right_tail.map_values(|c: char| escaped(c)));
        escapes_differ(
            left[0],
            right[0],
            lefts.drop_first().flatten(),
            rights.drop_first().flatten(),
        );
        escaped_texts_differ(left_tail, right_tail);
        assert(left =~= seq![left[0]] + left_tail);
        assert(right =~= seq![right[0]] + right_tail);
    }
}

/// Different texts are written differently.
pub proof fn quoting_keeps_texts_apart(left: Seq<char>, right: Seq<char>)
    requires
        quoted(left) == quoted(right),
    ensures
        left == right,
{
    let lefts = left.map_values(|c: char| escaped(c)).flatten();
    let rights = right.map_values(|c: char| escaped(c)).flatten();
    assert(lefts =~= quoted(left).subrange(1, quoted(left).len() - 1));
    assert(rights =~= quoted(right).subrange(1, quoted(right).len() - 1));
    escaped_texts_differ(left, right);
}

/// A text of plain characters is written as it is, between quotes.
pub proof fn plain_texts_are_written_as_they_are(text: Seq<char>)
    requires
        forall|i: int|
            0 <= i < text.len() ==> (#[trigger] text[i]) as u32 >= 32 && text[i] != '"' && text[i]
                != '\\',
    ensures
        quoted(text) == seq!['"'] + text + seq!['"'],
{
    plain_texts_escape_to_themselves(text);
}

proof fn plain_texts_escape_to_themselves(text: Seq<char>)
    requires
        forall|i: int|
            0 <= i < text.len() ==> (#[trigger] text[i]) as u32 >= 32 && text[i] != '"' && text[i]
                != '\\',
    ensures
        text.map_values(|c: char| escaped(c)).flatten() == text,
    decreases text.len(),
{
    let parts = text.map_values(|c: char| escaped(c));
    reveal_with_fuel(Seq::flatten, 2);
    if text.len() == 0 {
        assert(parts.flatten() =~= text);
    } else {
        let tail = text.drop_first();
        assert(parts.drop_first() =~= tail.map_values(|c: char| escaped(c)));
        plain_texts_escape_to_themselves(tail);
        assert(parts.flatten() =~= seq![text[0]] + tail);
        assert(text =~= seq![text[0]] + tail);
    }
}

} // verus!
