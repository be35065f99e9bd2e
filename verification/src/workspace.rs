//! The saved workspace: which sessions were observed, and how they were laid out.
//!
//! A workspace never holds authority: restoring one opens observer panes only.

use vstd::prelude::*;
use vstd::view::View as _;

use crate::backend::{attach, attach_result, Reply};
use crate::protocol::{PlatformRequest, SessionRecord};
use crate::state::{
    find_pane, key_of, CockpitModel, CockpitState, PaneLayout, PaneModel, View, MAX_PANES,
};
use crate::text::{decimal, decimal_text};

verus! {

pub const WORKSPACE_VERSION: u32 = 1;

pub const MAX_WORKSPACE_BYTES: u64 = 65536;

/// The file below the configuration directory.
pub const WORKSPACE_FILE: &'static str = "jcode/platform-workspace.json";

/// A saved workspace.
#[derive(Clone, Debug, PartialEq, Eq)]
pub struct SavedWorkspace {
    pub version: u32,
    pub layout: String,
    pub panes: Vec<SavedPane>,
}

/// A saved pane.
#[derive(Debug, PartialEq, Eq)]
pub struct SavedPane {
    pub session_id: String,
    pub pinned: bool,
}

impl Clone for SavedPane {
    fn clone(&self) -> (copy: Self)
        ensures
            copy == *self,
    {
        SavedPane { session_id: self.session_id.clone(), pinned: self.pinned }
    }
}

/// A result whose error is a word, by that word.
pub open spec fn told<T>(result: Result<T, &'static str>) -> Result<T, Seq<char>> {
    match result {
        Ok(value) => Ok(value),
        Err(word) => Err(word@),
    }
}

/// Who owns a file, and what its permission bits are.
#[derive(Clone, Copy, Debug, PartialEq, Eq, Structural)]
pub struct Ownership {
    pub user: u32,
    pub mode: u32,
}

/// What the file system says of the workspace file.
#[derive(Clone, Copy, Debug, PartialEq, Eq, Structural)]
pub enum FileReport {
    Missing,
    Unreadable,
    Found { regular: bool, length: u64, ownership: Option<Ownership> },
}

/// Whether there is a workspace to read, or the word for why it must not be read: it is no plain
/// file, is too long, or is not its owner's alone.
pub open spec fn readable(report: FileReport, user: u32) -> Result<bool, Seq<char>> {
    match report {
        FileReport::Missing => Ok(false),
        FileReport::Unreadable => Err("workspace_unreadable"@),
        FileReport::Found { regular, length, ownership } => if !regular || length
            > MAX_WORKSPACE_BYTES {
            Err("workspace_file_invalid"@)
        } else if ownership is Some && (ownership->0.user != user || ownership->0.mode & 0o777
            != 0o600) {
            Err("workspace_permissions_invalid"@)
        } else {
            Ok(true)
        },
    }
}

/// Whether there is a workspace to read for a user.
pub fn check_report(report: FileReport, user: u32) -> (result: Result<bool, &'static str>)
    ensures
        told(result) == readable(report, user),
{
    match report {
        FileReport::Missing => Ok(false),
        FileReport::Unreadable => Err("workspace_unreadable"),
        FileReport::Found { regular, length, ownership } => {
            if !regular || length > MAX_WORKSPACE_BYTES {
                return Err("workspace_file_invalid");
            }
            if let Some(ownership) = ownership {
                if ownership.user != user || ownership.mode & 0o777 != 0o600 {
                    return Err("workspace_permissions_invalid");
                }
            }
            Ok(true)
        },
    }
}

/// Whether a workspace of this many bytes is kept.
pub open spec fn kept_length(length: u64) -> Result<(), Seq<char>> {
    if length > MAX_WORKSPACE_BYTES {
        Err("workspace_too_large"@)
    } else {
        Ok(())
    }
}

/// Whether a workspace of this many bytes is kept.
pub fn check_length(length: u64) -> (result: Result<(), &'static str>)
    ensures
        told(result) == kept_length(length),
{
    if length > MAX_WORKSPACE_BYTES {
        Err("workspace_too_large")
    } else {
        Ok(())
    }
}

/// The name under which a workspace is written first.
pub open spec fn temporary_text(process: u32, nonce: u128) -> Seq<char> {
    ".platform-workspace."@ + decimal_text(process as nat) + "."@ + decimal_text(nonce as nat)
        + ".tmp"@
}

/// The name under which a workspace is written before it takes the place of the old one.
pub fn temporary_name(process: u32, nonce: u128) -> (name: String)
    ensures
        name@ == temporary_text(process, nonce),
{
    let mut name = ".platform-workspace.".to_owned();
    name.append(decimal(process as u128).as_str());
    name.append(".");
    name.append(decimal(nonce).as_str());
    name.append(".tmp");
    name
}

/// How saving ends.
pub open spec fn saving_ended(stored: bool, removed: bool, remains: bool) -> Result<
    (),
    Seq<char>,
> {
    if stored {
        Ok(())
    } else if !removed && remains {
        Err("workspace_cleanup_failed"@)
    } else {
        Err("workspace_save_failed"@)
    }
}

/// How saving ends: where the workspace could not be put in its place, what was written for it
/// must not stay behind.
pub fn save_outcome(stored: bool, removed: bool, remains: bool) -> (result: Result<
    (),
    &'static str,
>)
    ensures
        told(result) == saving_ended(stored, removed, remains),
{
    if stored {
        Ok(())
    } else if !removed && remains {
        Err("workspace_cleanup_failed")
    } else {
        Err("workspace_save_failed")
    }
}

/// Whether a saved pane stands for a pane.
pub open spec fn stands_for(saved: SavedPane, pane: PaneModel) -> bool {
    saved.session_id@ == pane.record.session.resource.id@ && saved.pinned == pane.pinned
}

/// Whether a saved workspace stands for a state: its layout, and every pane's session and pin in
/// order.
pub open spec fn saves(saved: SavedWorkspace, state: CockpitModel) -> bool {
    &&& saved.version == WORKSPACE_VERSION
    &&& saved.layout@ == state.pane_layout.word()
    &&& saved.panes@.len() == state.panes.len()
    &&& forall|i: int|
        0 <= i < state.panes.len() ==> stands_for(#[trigger] saved.panes@[i], state.panes[i])
}

/// The workspace to save for a state.
pub fn saved_workspace(state: &CockpitState) -> (saved: SavedWorkspace)
    ensures
        saves(saved, state@),
{
    let mut panes: Vec<SavedPane> = Vec::new();
    let mut at: usize = 0;
    while at < state.panes.len()
        invariant
            at <= state.panes@.len(),
            panes@.len() == at,
            forall|i: int| 0 <= i < at ==> stands_for(#[trigger] panes@[i], state@.panes[i]),
        decreases state.panes@.len() - at,
    {
        let pane = &state.panes[at];
        panes.push(
            SavedPane {
                session_id: pane.record.session.resource.id.clone(),
                pinned: pane.pinned,
            },
        );
        proof {
            assert(state@.panes[at as int] == pane@);
        }
        at += 1;
    }
    SavedWorkspace {
        version: WORKSPACE_VERSION,
        layout: state.pane_layout.label().to_owned(),
        panes,
    }
}

/// The panes that are being restored, and how many were dealt with.
#[derive(Clone, Debug, PartialEq, Eq)]
pub struct Restoring {
    pub panes: Vec<SavedPane>,
    pub done: usize,
}

/// What restoring a workspace comes to next.
#[derive(Clone, Debug, PartialEq, Eq)]
pub enum RestoreStep {
    Send { request: PlatformRequest, record: SessionRecord, then: Restoring },
    Restored,
    Failed(&'static str),
}

/// The first session with an identity.
pub open spec fn session_with_id(sessions: Seq<SessionRecord>, id: Seq<char>) -> Option<
    SessionRecord,
>
    decreases sessions.len(),
{
    if sessions.len() == 0 {
        None
    } else if sessions[0].session.resource.id@ == id {
        Some(sessions[0])
    } else {
        session_with_id(sessions.skip(1), id)
    }
}

fn find_by_id<'a>(sessions: &'a Vec<SessionRecord>, id: &String) -> (found: Option<
    &'a SessionRecord,
>)
    ensures
        match found {
            Some(session) => session_with_id(sessions@, id@) == Some(*session),
            None => session_with_id(sessions@, id@) is None,
        },
{
    let mut at: usize = 0;
    proof {
        assert(sessions@.skip(0) =~= sessions@);
    }
    while at < sessions.len()
        invariant
            at <= sessions@.len(),
            session_with_id(sessions@, id@) == session_with_id(sessions@.skip(at as int), id@),
        decreases sessions@.len() - at,
    {
        proof {
            assert(sessions@.skip(at as int)[0] == sessions@[at as int]);
            assert(sessions@.skip(at as int).skip(1) =~= sessions@.skip(at + 1));
        }
        if sessions[at].session.resource.id == *id {
            return Some(&sessions[at]);
        }
        at += 1;
    }
    None
}

/// Whether a saved session stands among the saved panes before it.
pub open spec fn repeats(panes: Seq<SavedPane>, at: int) -> bool {
    exists|i: int| 0 <= i < at && (#[trigger] panes[i]).session_id@ == panes[at].session_id@
}

fn is_repeated(panes: &Vec<SavedPane>, at: usize) -> (repeated: bool)
    requires
        at < panes@.len(),
    ensures
        repeated == repeats(panes@, at as int),
{
    let mut i: usize = 0;
    while i < at
        invariant
            i <= at < panes@.len(),
            forall|j: int|
                0 <= j < i ==> (#[trigger] panes@[j]).session_id@ != panes@[at as int].session_id@,
        decreases at - i,
    {
        if panes[i].session_id == panes[at].session_id {
            return true;
        }
        i += 1;
    }
    false
}

/// What comes next of the saved panes.
#[verifier::ext_equal]
pub enum NextPane {
    End,
    Repeated,
    Attach { at: nat, record: SessionRecord },
}

/// What comes next of the saved panes: sessions that are missing or cannot be attached are
/// skipped, and a session that is saved twice ends the restoration.
pub open spec fn next_pane(sessions: Seq<SessionRecord>, panes: Seq<SavedPane>, at: nat) -> NextPane
    decreases panes.len() - at,
{
    if at >= panes.len() {
        NextPane::End
    } else if repeats(panes, at as int) {
        NextPane::Repeated
    } else {
        match session_with_id(sessions, panes[at as int].session_id@) {
            Some(record) => if record.attachable {
                NextPane::Attach { at, record }
            } else {
                next_pane(sessions, panes, at + 1)
            },
            None => next_pane(sessions, panes, at + 1),
        }
    }
}

impl CockpitModel {
    /// The state once every saved pane was dealt with.
    pub open spec fn restoration_ended(self) -> CockpitModel {
        if self.panes.len() == 0 {
            self
        } else {
            self.viewing(View::Sessions).saying(
                "saved observer panes restored without control authority"@,
            )
        }
    }

    /// The state once a saved session was asked for: an observer pane with the saved pin, or
    /// nothing where the authority refused.
    pub open spec fn restored(self, record: SessionRecord, pinned: bool, reply: Reply) -> CockpitModel {
        match attach_result(reply) {
            Ok(attachment) => {
                let after = self.attached(record, attachment);
                if self.opens_pane(record) {
                    let last = after.panes.len() - 1;
                    CockpitModel {
                        panes: after.panes.update(
                            last,
                            PaneModel { pinned, ..after.panes[last] },
                        ),
                        ..after
                    }
                } else {
                    after
                }
            },
            Err(_) => self,
        }
    }
}

/// Whether a restoration goes on as described.
pub open spec fn restoration_goes_on(
    before: CockpitModel,
    panes: Seq<SavedPane>,
    at: nat,
    client: String,
    after: CockpitModel,
    step: RestoreStep,
) -> bool {
    match next_pane(before.overview.sessions, panes, at) {
        NextPane::End => after == before.restoration_ended() && step == RestoreStep::Restored,
        NextPane::Repeated => {
            &&& after == before
            &&& step matches RestoreStep::Failed(word)
            &&& word@ == "workspace_duplicate_session"@
        },
        NextPane::Attach { at, record } => {
            &&& after == before
            &&& step matches RestoreStep::Send { request, record: asked, then }
            &&& request == (PlatformRequest::Attach { session: record.session.resource, client })
            &&& asked == record
            &&& then.panes@ == panes
            &&& then.done == at
        },
    }
}

fn go_on(restoring: Restoring, client: &String, state: &mut CockpitState) -> (step: RestoreStep)
    ensures
        restoration_goes_on(
            old(state)@,
            restoring.panes@,
            restoring.done as nat,
            *client,
            final(state)@,
            step,
        ),
{
    let ghost first = restoring.done as nat;
    let ghost panes = restoring.panes@;
    let mut plan = restoring;
    while plan.done < plan.panes.len()
        invariant
            plan.panes@ == panes,
            panes == restoring.panes@,
            first == restoring.done,
            *state == *old(state),
            next_pane(state@.overview.sessions, panes, first) == next_pane(
                state@.overview.sessions,
                panes,
                plan.done as nat,
            ),
        decreases panes.len() - plan.done,
    {
        if is_repeated(&plan.panes, plan.done) {
            return RestoreStep::Failed("workspace_duplicate_session");
        }
        let wanted = &plan.panes[plan.done];
        if let Some(record) = find_by_id(&state.overview.sessions, &wanted.session_id) {
            if record.attachable {
                let record = record.clone();
                return RestoreStep::Send {
                    request: PlatformRequest::Attach {
                        session: record.session.resource.clone(),
                        client: client.clone(),
                    },
                    record,
                    then: plan,
                };
            }
        }
        plan.done = plan.done + 1;
    }
    if state.panes.len() > 0 {
        state.set_view(View::Sessions);
        state.status = "saved observer panes restored without control authority".to_owned();
    }
    RestoreStep::Restored
}

/// Whether a restoration begins as described: with the saved layout, or not at all.
pub open spec fn restoration_begins(
    before: CockpitModel,
    saved: SavedWorkspace,
    client: String,
    after: CockpitModel,
    step: RestoreStep,
) -> bool {
    if saved.version != WORKSPACE_VERSION || saved.panes@.len() > MAX_PANES {
        &&& step matches RestoreStep::Failed(word)
        &&& word@ == "workspace_version_or_size_invalid"@
        &&& after == before
    } else {
        ||| exists|layout: PaneLayout|
            #[trigger] layout.word() == saved.layout@ && restoration_goes_on(
                CockpitModel { pane_layout: layout, ..before },
                saved.panes@,
                0,
                client,
                after,
                step,
            )
        ||| {
            &&& forall|layout: PaneLayout| #[trigger] layout.word() != saved.layout@
            &&& step matches RestoreStep::Failed(word)
            &&& word@ == "workspace_layout_invalid"@
            &&& after == before
        }
    }
}

/// Begins to restore a saved workspace: its layout is taken over first. A workspace of another
/// version, with too many panes or with an unknown layout is not restored.
pub fn restore_workspace(saved: SavedWorkspace, client: &String, state: &mut CockpitState) -> (step:
    RestoreStep)
    ensures
        restoration_begins(old(state)@, saved, *client, final(state)@, step),
{
    if saved.version != WORKSPACE_VERSION || saved.panes.len() > MAX_PANES {
        return RestoreStep::Failed("workspace_version_or_size_invalid");
    }
    match PaneLayout::parse(saved.layout.as_str()) {
        Some(layout) => {
            proof {
                assert(layout.word() == saved.layout@);
            }
            state.pane_layout = layout;
            go_on(Restoring { panes: saved.panes, done: 0 }, client, state)
        },
        None => RestoreStep::Failed("workspace_layout_invalid"),
    }
}

/// Goes on with a restoration once a saved session was asked for.
pub fn restore_answered(
    then: Restoring,
    record: SessionRecord,
    reply: Reply,
    client: &String,
    state: &mut CockpitState,
) -> (step: RestoreStep)
    requires
        then.done < then.panes@.len(),
    ensures
        restoration_goes_on(
            old(state)@.restored(record, then.panes@[then.done as int].pinned, reply),
            then.panes@,
            (then.done + 1) as nat,
            *client,
            final(state)@,
            step,
        ),
{
    let mut restoring = then;
    assert(restoring.done < restoring.panes.len());
    let pinned = restoring.panes[restoring.done].pinned;
    if let Ok(attachment) = attach(reply) {
        if state.attach(record, attachment) {
            let last = state.panes.len() - 1;
            state.panes[last].pinned = pinned;
            proof {
                let before = old(state)@.attached(record, attachment);
                assert(state@.panes =~= before.panes.update(
                    before.panes.len() - 1,
                    PaneModel { pinned, ..before.panes[before.panes.len() - 1] },
                ));
            }
        }
    }
    restoring.done = restoring.done + 1;
    go_on(restoring, client, state)
}

/// Says that a saved workspace was not restored.
pub fn ignore_workspace(state: &mut CockpitState)
    ensures
        final(state)@ == old(state)@.saying(
            "saved pane layout was ignored because it was invalid"@,
        ),
{
    state.status = "saved pane layout was ignored because it was invalid".to_owned();
}

proof fn next_pane_lies_ahead(sessions: Seq<SessionRecord>, panes: Seq<SavedPane>, at: nat)
    ensures
        next_pane(sessions, panes, at) matches NextPane::Attach { at: place, record } ==> at <= place
            < panes.len() && session_with_id(sessions, panes[place as int].session_id@) == Some(
            record,
        ) && record.attachable,
    decreases panes.len() - at,
{
    if at < panes.len() && !repeats(panes, at as int) {
        next_pane_lies_ahead(sessions, panes, at + 1);
    }
}

/// The whole restoration of saved panes from a place on, given the answer for each: the state it
/// ends in, or nothing where a session is saved twice.
pub open spec fn restoration(
    state: CockpitModel,
    panes: Seq<SavedPane>,
    at: nat,
    replies: Seq<Reply>,
) -> Option<CockpitModel>
    decreases panes.len() - at,
    via restoration_ends
{
    match next_pane(state.overview.sessions, panes, at) {
        NextPane::End => Some(state.restoration_ended()),
        NextPane::Repeated => None,
        NextPane::Attach { at: place, record } => restoration(
            state.restored(record, panes[place as int].pinned, replies[place as int]),
            panes,
            place + 1,
            replies,
        ),
    }
}

#[via_fn]
proof fn restoration_ends(
    state: CockpitModel,
    panes: Seq<SavedPane>,
    at: nat,
    replies: Seq<Reply>,
) {
    next_pane_lies_ahead(state.overview.sessions, panes, at);
}

/// Whether a restoration went through these states and steps: every step but the last asked for
/// a saved session, and the answer for it led to the next one. The answers stand in the places of
/// the saved panes.
pub open spec fn restoration_ran(
    states: Seq<CockpitModel>,
    steps: Seq<RestoreStep>,
    replies: Seq<Reply>,
    client: String,
) -> bool {
    &&& steps.len() > 0
    &&& states.len() == steps.len()
    &&& forall|i: int|
        0 <= i < steps.len() - 1 ==> {
            &&& #[trigger] steps[i] matches RestoreStep::Send { record, then, .. }
            &&& restoration_goes_on(
                states[i].restored(
                    record,
                    then.panes@[then.done as int].pinned,
                    replies[then.done as int],
                ),
                then.panes@,
                (then.done + 1) as nat,
                client,
                states[i + 1],
                steps[i + 1],
            )
        }
}

/// A restoration that ran to its end has dealt with every saved pane: it has ended in the state
/// that the answers make, or failed because a session is saved twice.
pub proof fn restoration_ends_restored(
    before: CockpitModel,
    panes: Seq<SavedPane>,
    at: nat,
    client: String,
    states: Seq<CockpitModel>,
    steps: Seq<RestoreStep>,
    replies: Seq<Reply>,
)
    requires
        restoration_ran(states, steps, replies, client),
        restoration_goes_on(before, panes, at, client, states[0], steps[0]),
        steps.last() !is Send,
    ensures
        steps.last() == RestoreStep::Restored <==> restoration(before, panes, at, replies) is Some,
        steps.last() == RestoreStep::Restored ==> restoration(before, panes, at, replies) == Some(
            states.last(),
        ),
    decreases panes.len() - at,
{
    next_pane_lies_ahead(before.overview.sessions, panes, at);
    if steps.len() > 1 {
        assert(steps[0] is Send);
    }
    match next_pane(before.overview.sessions, panes, at) {
        NextPane::Attach { at: place, record } => {
            let later_states = states.skip(1);
            let later_steps = steps.skip(1);
            assert forall|i: int| 0 <= i < later_steps.len() - 1 implies {
                &&& #[trigger] later_steps[i] matches RestoreStep::Send { record, then, .. }
                &&& restoration_goes_on(
                    later_states[i].restored(
                        record,
                        then.panes@[then.done as int].pinned,
                        replies[then.done as int],
                    ),
                    then.panes@,
                    (then.done + 1) as nat,
                    client,
                    later_states[i + 1],
                    later_steps[i + 1],
                )
            } by {
                assert(steps[i + 1] is Send);
            }
            restoration_ends_restored(
                before.restored(record, panes[place as int].pinned, replies[place as int]),
                panes,
                place + 1,
                client,
                later_states,
                later_steps,
                replies,
            );
        },
        _ => {},
    }
}

/// Whether no pane holds a control lease.
pub open spec fn controls_nothing(state: CockpitModel) -> bool {
    forall|i: int| 0 <= i < state.panes.len() ==> (#[trigger] state.panes[i]).control is None
}

/// Restoring a workspace never grants control: a client that controls nothing controls nothing
/// afterwards, whatever the authority answers.
pub proof fn restoring_grants_no_control(
    state: CockpitModel,
    panes: Seq<SavedPane>,
    at: nat,
    replies: Seq<Reply>,
)
    requires
        controls_nothing(state),
    ensures
        restoration(state, panes, at, replies) is Some ==> controls_nothing(
            restoration(state, panes, at, replies)->0,
        ),
    decreases panes.len() - at,
{
    next_pane_lies_ahead(state.overview.sessions, panes, at);
    match next_pane(state.overview.sessions, panes, at) {
        NextPane::Attach { at: place, record } => {
            restoring_grants_no_control(
                state.restored(record, panes[place as int].pinned, replies[place as int]),
                panes,
                place + 1,
                replies,
            );
        },
        _ => {},
    }
}

/// Whether every pane shows a session that was saved, is listed and can be attached.
pub open spec fn shows_saved_only(state: CockpitModel, panes: Seq<SavedPane>) -> bool {
    forall|i: int|
        0 <= i < state.panes.len() ==> comes_from_saved(#[trigger] state.panes[i], state, panes)
}

/// Whether a pane shows a session that was saved, is listed and can be attached.
pub open spec fn comes_from_saved(
    pane: PaneModel,
    state: CockpitModel,
    panes: Seq<SavedPane>,
) -> bool {
    exists|place: int|
        0 <= place < panes.len() && session_with_id(
            state.overview.sessions,
            (#[trigger] panes[place]).session_id@,
        ) == Some(pane.record) && pane.record.attachable
}

/// Restoring skips what is missing: it opens panes only on sessions that were saved, are listed
/// and can be attached.
pub proof fn restoring_opens_saved_sessions_only(
    state: CockpitModel,
    panes: Seq<SavedPane>,
    at: nat,
    replies: Seq<Reply>,
)
    requires
        shows_saved_only(state, panes),
    ensures
        restoration(state, panes, at, replies) is Some ==> shows_saved_only(
            restoration(state, panes, at, replies)->0,
            panes,
        ),
    decreases panes.len() - at,
{
    next_pane_lies_ahead(state.overview.sessions, panes, at);
    match next_pane(state.overview.sessions, panes, at) {
        NextPane::Attach { at: place, record } => {
            let next = state.restored(
                record,
                panes[place as int].pinned,
                replies[place as int],
            );
            assert forall|i: int| 0 <= i < next.panes.len() implies comes_from_saved(
                #[trigger] next.panes[i],
                next,
                panes,
            ) by {
                if i < state.panes.len() {
                    assert(comes_from_saved(state.panes[i], state, panes));
                    let from = choose|from: int|
                        0 <= from < panes.len() && session_with_id(
                            state.overview.sessions,
                            (#[trigger] panes[from]).session_id@,
                        ) == Some(state.panes[i].record) && state.panes[i].record.attachable;
                } else {
                    let wanted = panes[place as int].session_id@;
                    assert(session_with_id(next.overview.sessions, wanted) == Some(record));
                }
            }
            restoring_opens_saved_sessions_only(next, panes, place + 1, replies);
        },
        NextPane::End => {
            let ended = state.restoration_ended();
            assert forall|i: int| 0 <= i < ended.panes.len() implies comes_from_saved(
                #[trigger] ended.panes[i],
                ended,
                panes,
            ) by {
                assert(comes_from_saved(state.panes[i], state, panes));
            }
        },
        _ => {},
    }
}

/// A saved layout is read back as the layout that was saved.
pub proof fn saved_layout_reads_back(
    saved: SavedWorkspace,
    state: CockpitModel,
    layout: PaneLayout,
)
    requires
        saves(saved, state),
    ensures
        layout.word() == saved.layout@ <==> layout == state.pane_layout,
{
    if layout.word() == saved.layout@ {
        crate::state::layout_words_are_distinct(layout, state.pane_layout);
    }
}

/// Whether every saved session from a place on is there, can be attached and is attached, and no
/// two of them share a key.
pub open spec fn all_come_back(
    sessions: Seq<SessionRecord>,
    panes: Seq<SavedPane>,
    replies: Seq<Reply>,
) -> bool {
    &&& panes.len() <= MAX_PANES
    &&& forall|i: int|
        0 <= i < panes.len() ==> {
            let found = session_with_id(sessions, (#[trigger] panes[i]).session_id@);
            &&& found is Some
            &&& found->0.attachable
            &&& attach_result(replies[i]) is Ok
        }
    &&& forall|i: int, j: int|
        0 <= i < j < panes.len() ==> key_of(
            session_with_id(sessions, (#[trigger] panes[i]).session_id@)->0.session.resource@,
        ) != key_of(
            session_with_id(sessions, (#[trigger] panes[j]).session_id@)->0.session.resource@,
        )
}

/// A workspace is read back as it was saved: where every saved session is still there and is
/// attached, the restored panes show the saved sessions with the saved pins in the saved order.
pub proof fn restoring_brings_every_pane_back(
    state: CockpitModel,
    panes: Seq<SavedPane>,
    replies: Seq<Reply>,
)
    requires
        state.panes.len() == 0,
        all_come_back(state.overview.sessions, panes, replies),
    ensures
        restoration(state, panes, 0, replies) is Some,
        ({
            let after = restoration(state, panes, 0, replies)->0;
            &&& after.panes.len() == panes.len()
            &&& forall|i: int|
                0 <= i < panes.len() ==> stands_for(#[trigger] panes[i], after.panes[i])
        }),
{
    restoring_goes_on_in_order(state, panes, 0, replies);
}

/// Whether the panes show the first of the saved panes.
spec fn shows_first(state: CockpitModel, panes: Seq<SavedPane>, count: nat) -> bool {
    &&& state.panes.len() == count
    &&& count <= panes.len()
    &&& forall|i: int|
        0 <= i < count ==> {
            let record = session_with_id(
                state.overview.sessions,
                (#[trigger] panes[i]).session_id@,
            );
            &&& record is Some
            &&& state.panes[i].record == record->0
            &&& state.panes[i].pinned == panes[i].pinned
        }
}

proof fn restoring_goes_on_in_order(
    state: CockpitModel,
    panes: Seq<SavedPane>,
    at: nat,
    replies: Seq<Reply>,
)
    requires
        all_come_back(state.overview.sessions, panes, replies),
        shows_first(state, panes, at),
    ensures
        restoration(state, panes, at, replies) is Some,
        ({
            let after = restoration(state, panes, at, replies)->0;
            &&& after.panes.len() == panes.len()
            &&& forall|i: int|
                0 <= i < panes.len() ==> stands_for(#[trigger] panes[i], after.panes[i])
        }),
    decreases panes.len() - at,
{
    let sessions = state.overview.sessions;
    if at < panes.len() {
        let record = session_with_id(sessions, panes[at as int].session_id@)->0;
        assert(session_with_id(sessions, panes[at as int].session_id@) is Some);
        assert(!repeats(panes, at as int)) by {
            if repeats(panes, at as int) {
                let i = choose|i: int|
                    0 <= i < at && (#[trigger] panes[i]).session_id@
                        == panes[at as int].session_id@;
                assert(panes[i].session_id@ == panes[at as int].session_id@);
            }
        }
        assert(next_pane(sessions, panes, at) == NextPane::Attach { at, record });
        assert(attach_result(replies[at as int]) is Ok);
        let key = key_of(record.session.resource@);
        assert(find_pane(state.panes, key) is None) by {
            assert forall|index: int| !crate::state::first_pane(state.panes, key, index) by {
                if 0 <= index < state.panes.len() {
                    let earlier = session_with_id(sessions, panes[index].session_id@)->0;
                    assert(state.panes[index].record == earlier);
                    assert(key_of(earlier.session.resource@) != key);
                    assert(state.panes[index].key() != key);
                }
            }
        }
        let next = state.restored(record, panes[at as int].pinned, replies[at as int]);
        assert(shows_first(next, panes, at + 1)) by {
            assert forall|i: int| 0 <= i < at + 1 implies {
                let found = session_with_id(sessions, (#[trigger] panes[i]).session_id@);
                &&& found is Some
                &&& next.panes[i].record == found->0
                &&& next.panes[i].pinned == panes[i].pinned
            } by {
                if i < at {
                    assert(next.panes[i] == state.panes[i]);
                }
            }
        }
        restoring_goes_on_in_order(next, panes, at + 1, replies);
        assert(restoration(state, panes, at, replies) == restoration(
            next,
            panes,
            at + 1,
            replies,
        ));
    } else {
        let after = restoration(state, panes, at, replies)->0;
        assert forall|i: int| 0 <= i < panes.len() implies stands_for(
            #[trigger] panes[i],
            after.panes[i],
        ) by {
            found_session_has_id(sessions, panes[i].session_id@);
        }
    }
}

proof fn found_session_has_id(sessions: Seq<SessionRecord>, id: Seq<char>)
    ensures
        session_with_id(sessions, id) is Some ==> session_with_id(
            sessions,
            id,
        )->0.session.resource.id@ == id,
    decreases sessions.len(),
{
    if sessions.len() > 0 && sessions[0].session.resource.id@ != id {
        found_session_has_id(sessions.skip(1), id);
    }
}

/// A workspace is read only from a plain file of at most 65536 bytes that belongs to the user
/// alone, readable and writable by nobody else. A file that is missing is no error.
pub proof fn only_private_files_are_read(
    regular: bool,
    length: u64,
    owner: u32,
    mode: u32,
    user: u32,
)
    ensures
        ({
            let ownership = Some(Ownership { user: owner, mode });
            let result = readable(FileReport::Found { regular, length, ownership }, user);
            let unowned = readable(
                FileReport::Found { regular, length, ownership: None },
                user,
            );
            &&& result == Ok::<bool, Seq<char>>(true) <==> regular && length <= 65536 && owner
                == user && mode & 0o777 == 0o600
            &&& result is Ok ==> result == Ok::<bool, Seq<char>>(true)
            &&& unowned == Ok::<bool, Seq<char>>(true) <==> regular && length <= 65536
            &&& !regular || length > 65536 ==> result == Err::<bool, Seq<char>>(
                "workspace_file_invalid"@,
            )
            &&& regular && length <= 65536 && (owner != user || mode & 0o777 != 0o600) ==> result
                == Err::<bool, Seq<char>>("workspace_permissions_invalid"@)
        }),
        readable(FileReport::Missing, user) == Ok::<bool, Seq<char>>(false),
        readable(FileReport::Unreadable, user) is Err,
        kept_length(length) is Ok <==> length <= 65536,
{
}

/// Saving has succeeded exactly where the file stands in its place; what is left behind is told.
pub proof fn saving_tells_what_is_left(removed: bool, remains: bool)
    ensures
        saving_ended(true, removed, remains) is Ok,
        saving_ended(false, removed, remains) is Err,
        saving_ended(false, false, true) != saving_ended(false, true, remains),
        saving_ended(false, false, false) == saving_ended(false, true, remains),
{
    reveal_strlit("workspace_cleanup_failed");
    reveal_strlit("workspace_save_failed");
    assert("workspace_cleanup_failed"@.len() != "workspace_save_failed"@.len());
}

/// Workspaces that are written at different points in time are written under different names.
pub proof fn temporary_names_differ(process: u32, nonce: u128, later: u128)
    requires
        nonce != later,
    ensures
        temporary_text(process, nonce) != temporary_text(process, later),
{
    let left = temporary_text(process, nonce);
    let right = temporary_text(process, later);
    let prefix = ".platform-workspace."@ + decimal_text(process as nat) + "."@;
    let suffix = ".tmp"@;
    if left == right {
        let first = decimal_text(nonce as nat);
        let second = decimal_text(later as nat);
        assert(left =~= prefix + first + suffix);
        assert(right =~= prefix + second + suffix);
        assert(first.len() == second.len());
        assert(first =~= left.subrange(prefix.len() as int, (prefix.len() + first.len()) as int));
        assert(second =~= right.subrange(
            prefix.len() as int,
            (prefix.len() + second.len()) as int,
        ));
        crate::text::decimal_text_is_injective(nonce as nat, later as nat);
    }
}

/// What is saved is the layout, and the identity and the pin of each pane in order, and nothing
/// that grants control.
pub proof fn saved_workspace_holds_the_panes(
    saved: SavedWorkspace,
    state: CockpitModel,
    pane: int,
)
    requires
        saves(saved, state),
        0 <= pane < state.panes.len(),
    ensures
        saved.version == 1,
        saved.panes@.len() == state.panes.len(),
        saved.panes@[pane].session_id@ == state.panes[pane].record.session.resource.id@,
        saved.panes@[pane].pinned == state.panes[pane].pinned,
        saved.layout@ == state.pane_layout.word(),
{
    assert(stands_for(saved.panes@[pane], state.panes[pane]));
}

/// A workspace of another version, of more than twelve panes or of an unknown layout changes
/// nothing; any other one begins with its layout.
pub proof fn unfit_workspaces_change_nothing(
    before: CockpitModel,
    saved: SavedWorkspace,
    client: String,
    after: CockpitModel,
    step: RestoreStep,
    layout: PaneLayout,
)
    requires
        restoration_begins(before, saved, client, after, step),
    ensures
        saved.version != 1 || saved.panes@.len() > 12 ==> step is Failed && after == before,
        saved.version == 1 && saved.panes@.len() <= 12 && saved.layout@ == layout.word()
            ==> after.pane_layout == layout,
        saved.version == 1 && saved.panes@.len() <= 12 && saved.layout@ == layout.word()
            && saved.panes@.len() == 0 ==> step == RestoreStep::Restored,
        after.connection == before.connection,
        after.overview == before.overview,
        after.pending_receipts == before.pending_receipts,
{
    if saved.version == 1 && saved.panes@.len() <= 12 && exists|known: PaneLayout|
        #[trigger] known.word() == saved.layout@ && restoration_goes_on(
            CockpitModel { pane_layout: known, ..before },
            saved.panes@,
            0,
            client,
            after,
            step,
        ) {
        let known = choose|known: PaneLayout|
            #[trigger] known.word() == saved.layout@ && restoration_goes_on(
                CockpitModel { pane_layout: known, ..before },
                saved.panes@,
                0,
                client,
                after,
                step,
            );
        if saved.layout@ == layout.word() {
            crate::state::layout_words_are_distinct(layout, known);
        }
    }
}

/// The next saved pane is asked for where its session is listed and can be attached: the request
/// names that session and this client. A pane whose session is missing or cannot be attached is
/// passed over, and one whose session was saved before ends the restoration.
pub proof fn saved_panes_are_asked_for_in_order(
    before: CockpitModel,
    panes: Seq<SavedPane>,
    at: nat,
    client: String,
    after: CockpitModel,
    step: RestoreStep,
    listed: int,
)
    requires
        restoration_goes_on(before, panes, at, client, after, step),
        at < panes.len(),
    ensures
        ({
            let sessions = before.overview.sessions;
            let wanted = panes[at as int].session_id@;
            let again = exists|i: int|
                0 <= i < at && (#[trigger] panes[i]).session_id@ == wanted;
            let found = 0 <= listed < sessions.len() && sessions[listed].session.resource.id@
                == wanted && (forall|i: int|
                0 <= i < listed ==> (#[trigger] sessions[i]).session.resource.id@ != wanted);
            let missing = forall|i: int|
                0 <= i < sessions.len() ==> (#[trigger] sessions[i]).session.resource.id@ != wanted;
            &&& again ==> step is Failed && after == before
            &&& !again && found && sessions[listed].attachable ==> {
                &&& after == before
                &&& step matches RestoreStep::Send { request, record, then }
                &&& request == (PlatformRequest::Attach {
                    session: sessions[listed].session.resource,
                    client,
                })
                &&& record == sessions[listed]
                &&& then.done == at
                &&& then.panes@ == panes
            }
            &&& !again && (missing || found && !sessions[listed].attachable)
                ==> restoration_goes_on(before, panes, at + 1, client, after, step)
        }),
{
    let sessions = before.overview.sessions;
    let wanted = panes[at as int].session_id@;
    let again = exists|i: int| 0 <= i < at && (#[trigger] panes[i]).session_id@ == wanted;
    assert(again == repeats(panes, at as int));
    if 0 <= listed < sessions.len() && sessions[listed].session.resource.id@ == wanted && (forall|
        i: int,
    |
        0 <= i < listed ==> (#[trigger] sessions[i]).session.resource.id@ != wanted) {
        first_with_id_is_found(sessions, wanted, listed);
    }
    if forall|i: int|
        0 <= i < sessions.len() ==> (#[trigger] sessions[i]).session.resource.id@ != wanted {
        missing_id_is_not_found(sessions, wanted);
    }
}

proof fn first_with_id_is_found(sessions: Seq<SessionRecord>, id: Seq<char>, listed: int)
    requires
        0 <= listed < sessions.len(),
        sessions[listed].session.resource.id@ == id,
        forall|i: int| 0 <= i < listed ==> (#[trigger] sessions[i]).session.resource.id@ != id,
    ensures
        session_with_id(sessions, id) == Some(sessions[listed]),
    decreases sessions.len(),
{
    if listed > 0 {
        let rest = sessions.skip(1);
        assert(sessions[0].session.resource.id@ != id);
        assert forall|i: int| 0 <= i < listed - 1 implies (
        #[trigger] rest[i]).session.resource.id@ != id by {
            assert(sessions[i + 1].session.resource.id@ != id);
        }
        first_with_id_is_found(rest, id, listed - 1);
    }
}

proof fn missing_id_is_not_found(sessions: Seq<SessionRecord>, id: Seq<char>)
    requires
        forall|i: int|
            0 <= i < sessions.len() ==> (#[trigger] sessions[i]).session.resource.id@ != id,
    ensures
        session_with_id(sessions, id) is None,
    decreases sessions.len(),
{
    if sessions.len() > 0 {
        let rest = sessions.skip(1);
        assert forall|i: int| 0 <= i < rest.len() implies (#[trigger] rest[i]).session.resource.id@
            != id by {
            assert(sessions[i + 1].session.resource.id@ != id);
        }
        missing_id_is_not_found(rest, id);
    }
}

/// Where every saved pane is dealt with, the sessions are shown if there is a pane, and the view
/// stays if there is none.
pub proof fn restoration_ends_on_the_sessions(
    before: CockpitModel,
    panes: Seq<SavedPane>,
    at: nat,
    client: String,
    after: CockpitModel,
    step: RestoreStep,
)
    requires
        restoration_goes_on(before, panes, at, client, after, step),
        at >= panes.len(),
    ensures
        step == RestoreStep::Restored,
        before.panes.len() > 0 ==> after.view == View::Sessions,
        before.panes.len() == 0 ==> after == before,
        after.panes == before.panes,
        after.focused_pane == before.focused_pane,
        after.connection == before.connection,
{
}

/// A saved session that is attached opens a pane with the saved pin and without control; one that
/// is refused opens none.
pub proof fn restored_pane_has_its_pin(
    state: CockpitModel,
    record: SessionRecord,
    pinned: bool,
    reply: Reply,
)
    requires
        state.panes.len() < 12,
        forall|i: int|
            0 <= i < state.panes.len() ==> (#[trigger] state.panes[i]).key() != key_of(
                record.session.resource@,
            ),
    ensures
        ({
            let after = state.restored(record, pinned, reply);
            &&& attach_result(reply) matches Ok(attachment) ==> {
                &&& after.panes.len() == state.panes.len() + 1
                &&& after.panes.drop_last() == state.panes
                &&& after.panes.last().record == record
                &&& after.panes.last().attachment == attachment
                &&& after.panes.last().pinned == pinned
                &&& after.panes.last().control is None
            }
            &&& attach_result(reply) is Err ==> after == state
        }),
{
    if attach_result(reply) is Ok {
        let attachment = attach_result(reply)->Ok_0;
        crate::pane_laws::attaching_opens_a_pane(state, record, attachment);
        let key = key_of(record.session.resource@);
        assert(find_pane(state.panes, key) is None) by {
            assert forall|index: int| !crate::state::first_pane(state.panes, key, index) by {
                if 0 <= index < state.panes.len() {
                    assert(state.panes[index].key() != key);
                }
            }
        }
        let after = state.restored(record, pinned, reply);
        assert(after.panes.drop_last() =~= state.panes);
    }
}

} // verus!
