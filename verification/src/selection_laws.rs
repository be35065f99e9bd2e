//! What each view shows and what is selected in it, said of the records themselves.

use vstd::prelude::*;
use vstd::view::View as _;

use crate::pane_laws::first_listed_session_is_found;
use crate::protocol::ResourceRecord;
use crate::state::{
    first_session, key_of, lists_key, listed_records_are_visible, shows_failure, stands_under,
    visible, visible_keys_are_distinct, visible_records_are_listed, CockpitModel, ConnectionState,
    View,
};
use crate::text::{ascii_lower, contains_text, stands_at};

verus! {

/// Whether a record is kept from every view: it publishes an action of the authority.
pub open spec fn publishes_an_action(record: ResourceRecord) -> bool {
    &&& record.resource.authority is Automonique
    &&& record.resource.kind is Client
    &&& exists|action: Seq<char>| record.resource.id@ == #[trigger] ("platform-action-"@ + action)
}

proof fn publishing_is_registering(record: ResourceRecord)
    ensures
        publishes_an_action(record) <==> crate::backend::registers_action(record),
{
    let prefix = "platform-action-"@;
    let id = record.resource.id@;
    if crate::backend::registers_action(record) {
        assert(id =~= prefix + id.skip(prefix.len() as int));
    }
    if publishes_an_action(record) {
        let action = choose|action: Seq<char>| id == #[trigger] (prefix + action);
        assert((prefix + action).take(prefix.len() as int) =~= prefix);
    }
}

/// A resource is shown in the view of its kind, and in the overview unless it is a node that is
/// not current, provided that no resource before it stands under its key but such as publish an
/// action. One that is not current is shown among the failures.
pub proof fn resources_are_shown_in_their_views(state: CockpitModel, place: int)
    requires
        0 <= place < state.overview.resources.len(),
        !publishes_an_action(state.overview.resources[place]),
        forall|i: int|
            0 <= i < place && key_of((#[trigger] state.overview.resources[i]).resource@) == key_of(
                state.overview.resources[place].resource@,
            ) ==> publishes_an_action(state.overview.resources[i]),
    ensures
        ({
            let record = state.overview.resources[place];
            let kind = record.resource.kind;
            let shown = state.shown().contains(record);
            &&& kind is Run && state.view == View::Runs ==> shown
            &&& kind is Session && state.view == View::Sessions ==> shown
            &&& kind is Approval && state.view == View::Approvals ==> shown
            &&& kind is Model && state.view == View::Models ==> shown
            &&& kind is Receipt && state.view == View::Receipts ==> shown
            &&& !(kind is Node) && state.view == View::Overview ==> shown
            &&& record.freshness.state@ == "fresh"@ && state.view == View::Overview ==> shown
            &&& record.freshness.state@ != "fresh"@ && state.view == View::Failures ==> shown
        }),
{
    publishing_is_registering(state.overview.resources[place]);
    assert forall|i: int|
        0 <= i < place && key_of((#[trigger] state.overview.resources[i]).resource@) == key_of(
            state.overview.resources[place].resource@,
        ) implies crate::backend::registers_action(state.overview.resources[i]) by {
        publishing_is_registering(state.overview.resources[i]);
    }
    first_record_is_visible(state, place);
}

/// A session is shown in the sessions view and in the overview, provided that no resource and no
/// session before it stands under its key but such as publish an action.
pub proof fn sessions_are_shown_in_their_view(state: CockpitModel, place: int)
    requires
        0 <= place < state.overview.sessions.len(),
        !publishes_an_action(state.overview.sessions[place].session),
        forall|i: int|
            0 <= i < state.overview.resources.len() && key_of(
                (#[trigger] state.overview.resources[i]).resource@,
            ) == key_of(state.overview.sessions[place].session.resource@) ==> publishes_an_action(
                state.overview.resources[i],
            ),
        forall|i: int|
            0 <= i < place && key_of((#[trigger] state.overview.sessions[i]).session.resource@)
                == key_of(state.overview.sessions[place].session.resource@)
                ==> publishes_an_action(state.overview.sessions[i].session),
    ensures
        ({
            let record = state.overview.sessions[place].session;
            let shown = state.shown().contains(record);
            &&& record.resource.kind is Session && state.view == View::Sessions ==> shown
            &&& !(record.resource.kind is Node) && state.view == View::Overview ==> shown
            &&& record.freshness.state@ != "fresh"@ && state.view == View::Failures ==> shown
        }),
{
    let record = state.overview.sessions[place].session;
    publishing_is_registering(record);
    let records = state.records();
    let at = state.overview.resources.len() + place;
    assert(records[at] == record);
    assert(!lists_key(records.take(at), key_of(record.resource@))) by {
        assert forall|i: int|
            0 <= i < at && !crate::backend::registers_action(
                #[trigger] records.take(at)[i],
            ) implies key_of(records.take(at)[i].resource@) != key_of(record.resource@) by {
            publishing_is_registering(records.take(at)[i]);
            if i < state.overview.resources.len() {
                assert(records.take(at)[i] == state.overview.resources[i]);
            } else {
                let earlier = i - state.overview.resources.len();
                assert(records.take(at)[i] == state.overview.sessions[earlier].session);
            }
        }
    }
    if crate::state::shown_in(record, state.view) {
        listed_records_are_visible(records, state.view, at);
    }
}

proof fn first_record_is_visible(state: CockpitModel, place: int)
    requires
        0 <= place < state.overview.resources.len(),
        !crate::backend::registers_action(state.overview.resources[place]),
        forall|i: int|
            0 <= i < place && key_of((#[trigger] state.overview.resources[i]).resource@) == key_of(
                state.overview.resources[place].resource@,
            ) ==> crate::backend::registers_action(state.overview.resources[i]),
    ensures
        crate::state::shown_in(state.overview.resources[place], state.view)
            ==> state.shown().contains(state.overview.resources[place]),
{
    let record = state.overview.resources[place];
    let records = state.records();
    assert(records[place] == record);
    assert(!lists_key(records.take(place), key_of(record.resource@))) by {
        assert forall|i: int|
            0 <= i < place && !crate::backend::registers_action(
                #[trigger] records.take(place)[i],
            ) implies key_of(records.take(place)[i].resource@) != key_of(record.resource@) by {
            assert(records.take(place)[i] == state.overview.resources[i]);
        }
    }
    if crate::state::shown_in(record, state.view) {
        listed_records_are_visible(records, state.view, place);
    }
}

/// A view shows nothing but what belongs to it: records of its kind, nodes only where they are
/// current, failures only where a record is not current or its summary names one. It shows no
/// record that publishes an action, and none that neither the resources nor the sessions hold.
pub proof fn views_show_nothing_else(state: CockpitModel, place: int)
    requires
        0 <= place < state.shown().len(),
    ensures
        ({
            let record = state.shown()[place];
            let kind = record.resource.kind;
            &&& state.view == View::Runs ==> kind is Run
            &&& state.view == View::Sessions ==> kind is Session
            &&& state.view == View::Approvals ==> kind is Approval
            &&& state.view == View::Models ==> kind is Model
            &&& state.view == View::Receipts ==> kind is Receipt
            &&& state.view == View::Overview && kind is Node ==> record.freshness.state@
                == "fresh"@
            &&& state.view == View::Failures ==> record.freshness.state@ != "fresh"@
                || names_a_failure(record.summary@)
            &&& !publishes_an_action(record)
            &&& {
                ||| exists|i: int|
                    0 <= i < state.overview.resources.len()
                        && #[trigger] state.overview.resources[i] == record
                ||| exists|i: int|
                    0 <= i < state.overview.sessions.len() && (
                    #[trigger] state.overview.sessions[i]).session == record
            }
        }),
{
    let records = state.records();
    let record = state.shown()[place];
    visible_records_are_listed(records, state.view, place);
    publishing_is_registering(record);
    if state.view == View::Failures && record.freshness.state@ == "fresh"@ {
        failure_words_are_named(record);
    }
    let i = choose|i: int| 0 <= i < records.len() && records[i] == record;
    if i < state.overview.resources.len() {
        assert(state.overview.resources[i] == record);
    } else {
        let at = i - state.overview.resources.len();
        assert(state.overview.sessions[at].session == record);
    }
}

/// Whether a summary names a failure, in any case of letters.
pub open spec fn names_a_failure(summary: Seq<char>) -> bool {
    let lowered = summary.map_values(|c: char| ascii_lower(c));
    ||| contains_text(lowered, "failed"@)
    ||| contains_text(lowered, "failure"@)
    ||| contains_text(lowered, "error"@)
    ||| contains_text(lowered, "rejected"@)
    ||| contains_text(lowered, "lost"@)
    ||| contains_text(lowered, "quarantine"@)
    ||| contains_text(lowered, "denied"@)
}

proof fn failure_words_are_named(record: ResourceRecord)
    ensures
        shows_failure(record) <==> record.freshness.state@ != "fresh"@ || names_a_failure(
            record.summary@,
        ),
{
    let words = crate::state::failure_words();
    let lowered = record.summary@.map_values(|c: char| ascii_lower(c));
    assert(words[0] == "failed"@ && words[1] == "failure"@ && words[2] == "error"@ && words[3]
        == "rejected"@ && words[4] == "lost"@ && words[5] == "quarantine"@ && words[6]
        == "denied"@);
    if names_a_failure(record.summary@) {
        assert(exists|i: int|
            0 <= i < words.len() && contains_text(lowered, #[trigger] words[i]));
    }
}

/// A record is a failure exactly where it is not current or where its summary holds one of the
/// words for a failure at some place.
pub proof fn failures_are_named_or_not_current(
    record: ResourceRecord,
    before: Seq<char>,
    after: Seq<char>,
)
    ensures
        record.freshness.state@ != "fresh"@ ==> shows_failure(record),
        record.summary@ == before + "failed"@ + after ==> shows_failure(record),
        record.summary@ == before + "failure"@ + after ==> shows_failure(record),
        record.summary@ == before + "error"@ + after ==> shows_failure(record),
        record.summary@ == before + "rejected"@ + after ==> shows_failure(record),
        record.summary@ == before + "lost"@ + after ==> shows_failure(record),
        record.summary@ == before + "quarantine"@ + after ==> shows_failure(record),
        record.summary@ == before + "denied"@ + after ==> shows_failure(record),
        record.summary@ == before + "FAILED"@ + after ==> shows_failure(record),
        shows_failure(record) ==> record.freshness.state@ != "fresh"@ || names_a_failure(
            record.summary@,
        ),
{
    reveal_strlit("failed");
    reveal_strlit("failure");
    reveal_strlit("error");
    reveal_strlit("rejected");
    reveal_strlit("lost");
    reveal_strlit("quarantine");
    reveal_strlit("denied");
    reveal_strlit("FAILED");
    failure_words_are_named(record);
    word_stands_in_summary(record.summary@, before, "failed"@, "failed"@, after);
    word_stands_in_summary(record.summary@, before, "failure"@, "failure"@, after);
    word_stands_in_summary(record.summary@, before, "error"@, "error"@, after);
    word_stands_in_summary(record.summary@, before, "rejected"@, "rejected"@, after);
    word_stands_in_summary(record.summary@, before, "lost"@, "lost"@, after);
    word_stands_in_summary(record.summary@, before, "quarantine"@, "quarantine"@, after);
    word_stands_in_summary(record.summary@, before, "denied"@, "denied"@, after);
    word_stands_in_summary(record.summary@, before, "FAILED"@, "failed"@, after);
}

proof fn word_stands_in_summary(
    summary: Seq<char>,
    before: Seq<char>,
    written: Seq<char>,
    word: Seq<char>,
    after: Seq<char>,
)
    requires
        written.map_values(|c: char| ascii_lower(c)) =~= word,
    ensures
        summary == before + written + after ==> contains_text(
            summary.map_values(|c: char| ascii_lower(c)),
            word,
        ),
{
    let lowered = summary.map_values(|c: char| ascii_lower(c));
    if summary == before + written + after {
        let at = before.len() as int;
        assert(word.len() == written.len());
        assert(lowered.subrange(at, at + word.len()) =~= word) by {
            assert forall|i: int| 0 <= i < word.len() implies lowered[at + i] == word[i] by {
                assert(summary[at + i] == written[i]);
                assert(written.map_values(|c: char| ascii_lower(c))[i] == word[i]);
            }
        }
        assert(stands_at(lowered, word, at));
    }
}

/// The records of a view stand in the order of the resources, with the sessions behind them.
pub proof fn views_keep_the_order(records: Seq<ResourceRecord>, view: View, left: int, right: int)
    requires
        0 <= left < right < visible(records, view).len(),
    ensures
        exists|i: int, j: int|
            0 <= i < j < records.len() && #[trigger] records[i] == visible(records, view)[left]
                && #[trigger] records[j] == visible(records, view)[right],
    decreases records.len(),
{
    let before = records.drop_last();
    let shown = visible(records, view);
    let earlier = visible(before, view);
    if right < earlier.len() {
        views_keep_the_order(before, view, left, right);
        let (i, j) = choose|i: int, j: int|
            0 <= i < j < before.len() && #[trigger] before[i] == earlier[left]
                && #[trigger] before[j] == earlier[right];
        assert(records[i] == shown[left] && records[j] == shown[right]);
    } else {
        visible_records_are_listed(before, view, left);
        let i = choose|i: int| 0 <= i < before.len() && before[i] == earlier[left];
        let j = records.len() - 1;
        assert(records[i] == shown[left] && records[j] == shown[right]);
    }
}

/// Selecting another view shows that view with its first record selected, and changes nothing
/// else.
pub proof fn another_view_begins_at_its_first_record(state: CockpitModel, view: View)
    ensures
        ({
            let after = state.viewing(view);
            &&& after.view == view
            &&& after.selected_index == 0
            &&& after.shown().len() > 0 ==> after.selected() == Some(after.shown()[0])
            &&& after.shown().len() == 0 ==> after.selected() is None && after.selected_key is None
            &&& after.panes == state.panes
            &&& after.focused_pane == state.focused_pane
            &&& after.overview == state.overview
            &&& after.connection == state.connection
            &&& after.status == state.status
        }),
{
}

/// The selection moves to the next or the previous record that is shown and stops at the ends.
pub proof fn selection_moves_by_one(state: CockpitModel)
    requires
        state.selected_index < state.shown().len(),
    ensures
        ({
            let shown = state.shown();
            let at = state.selected_index as int;
            let down = state.moved_selection(1);
            let up = state.moved_selection(-1);
            &&& at + 1 < shown.len() ==> down.selected() == Some(shown[at + 1])
            &&& at + 1 == shown.len() ==> down.selected() == Some(shown[at])
            &&& at > 0 ==> up.selected() == Some(shown[at - 1])
            &&& at == 0 ==> up.selected() == Some(shown[at])
            &&& down.selected_key == Some(key_of(down.selected()->0.resource@))
            &&& up.selected_key == Some(key_of(up.selected()->0.resource@))
            &&& down.view == state.view && up.view == state.view
            &&& down.overview == state.overview && up.overview == state.overview
            &&& down.panes == state.panes && up.panes == state.panes
            &&& down.focused_pane == state.focused_pane && up.focused_pane == state.focused_pane
            &&& down.connection == state.connection && up.connection == state.connection
        }),
{
}

/// Where the selected resource is no longer shown, the selection stays at its place, or comes to
/// the last record where there are fewer.
pub proof fn lost_selection_stays_near(state: CockpitModel)
    requires
        state.shown().len() > 0,
        match state.selected_key {
            Some(key) => forall|i: int|
                0 <= i < state.shown().len() ==> key_of((#[trigger] state.shown()[i]).resource@)
                    != key,
            None => true,
        },
    ensures
        state.selected_index < state.shown().len() ==> state.stabilized().selected_index
            == state.selected_index,
        state.selected_index >= state.shown().len() ==> state.stabilized().selected_index + 1
            == state.shown().len(),
        state.stabilized().selected_key == Some(
            key_of(state.shown()[state.stabilized().selected_index as int].resource@),
        ),
{
    if state.selected_key is Some {
        assert forall|index: int| !stands_under(
            state.shown(),
            state.selected_key->0,
            index,
        ) by {
            if 0 <= index < state.shown().len() {
                assert(key_of(state.shown()[index].resource@) != state.selected_key->0);
            }
        }
    }
}

/// Stabilizing the selection changes the selection only, and puts it on the record that stands
/// under the selected key where one does.
pub proof fn selection_follows_its_key(state: CockpitModel, place: int)
    requires
        0 <= place < state.shown().len(),
        state.selected_key == Some(key_of(state.shown()[place].resource@)),
    ensures
        state.stabilized().selected_index == place,
        state.stabilized().selected_key == state.selected_key,
        state.stabilized().panes == state.panes,
        state.stabilized().overview == state.overview,
        state.stabilized().view == state.view,
        state.stabilized().connection == state.connection,
{
    let key = state.selected_key->0;
    assert(stands_under(state.shown(), key, place));
    let chosen = choose|index: int| stands_under(state.shown(), key, index);
    visible_keys_are_distinct(state.records(), state.view, chosen, place);
}

/// The session under the selection is the first listed one that the selected record names; where
/// none is listed there is none.
pub proof fn chosen_session_is_the_selected_one(state: CockpitModel, listed: int)
    requires
        state.selected_index < state.shown().len(),
    ensures
        ({
            let selected = state.shown()[state.selected_index as int];
            let sessions = state.overview.sessions;
            &&& 0 <= listed < sessions.len() && sessions[listed].session.resource@
                == selected.resource@ && (forall|i: int|
                0 <= i < listed ==> (#[trigger] sessions[i]).session.resource@
                    != selected.resource@) ==> state.chosen_session() == Some(sessions[listed])
            &&& (forall|i: int|
                0 <= i < sessions.len() ==> (#[trigger] sessions[i]).session.resource@
                    != selected.resource@) ==> state.chosen_session() is None
        }),
{
    let selected = state.shown()[state.selected_index as int];
    let sessions = state.overview.sessions;
    if 0 <= listed < sessions.len() && sessions[listed].session.resource@ == selected.resource@
        && (forall|i: int|
        0 <= i < listed ==> (#[trigger] sessions[i]).session.resource@ != selected.resource@) {
        first_listed_session_is_found(sessions, selected.resource@, listed);
    }
    if forall|i: int|
        0 <= i < sessions.len() ==> (#[trigger] sessions[i]).session.resource@
            != selected.resource@ {
        assert forall|index: int| !first_session(sessions, selected.resource@, index) by {
            if 0 <= index < sessions.len() {
                assert(sessions[index].session.resource@ != selected.resource@);
            }
        }
    }
}

/// Nothing is selected behind the last record.
pub proof fn nothing_is_selected_behind_the_last_record(state: CockpitModel)
    requires
        state.selected_index >= state.shown().len(),
    ensures
        state.selected() is None,
        state.chosen_session() is None,
{
}

/// A cockpit opens live on its overview, with the first record selected and nothing else begun.
pub proof fn opening_shows_the_overview(overview: crate::backend::OverviewModel)
    ensures
        ({
            let state = crate::state::opened(overview);
            &&& state.overview == overview
            &&& state.view == View::Overview
            &&& state.connection == ConnectionState::Live
            &&& state.resource_cursor == overview.cursor
            &&& state.panes.len() == 0
            &&& state.receipts.len() == 0
            &&& state.pending_receipts.len() == 0
            &&& state.selected_index == 0
            &&& state.shown().len() > 0 ==> state.selected() == Some(state.shown()[0])
            &&& !state.show_help
            &&& !state.high_contrast
        }),
{
}

} // verus!
