//! The cockpit's state and every operation on it.
//!
//! Each operation is stated as a function from the state before to the state after, over
//! [`CockpitModel`].

use std::collections::VecDeque;
use vstd::prelude::*;
use vstd::view::View as _;

use crate::backend::{is_action_registration, registers_action, OperatorOverview, OverviewModel};
use crate::protocol::{
    ActionReceipt, Attachment, ControlLease, CoordinateModel, PlatformCursor, PlatformEvent,
    ResourceCoordinate, ResourceKind, ResourceRecord, SessionRecord, Subscription,
};
use crate::text::{ascii_lower, ascii_lowercase, contains, contains_text, same_text};

verus! {

pub const MAX_PANES: usize = 12;

pub const MAX_TIMELINE_EVENTS: usize = 256;

pub const MAX_RECEIPTS: usize = 64;

pub const MAX_PENDING_RECEIPTS: usize = 64;

/// A selection of resources that the cockpit can show.
#[derive(Clone, Copy, Debug, PartialEq, Eq, Structural)]
pub enum View {
    Overview,
    Runs,
    Sessions,
    Approvals,
    Models,
    Failures,
    Receipts,
}

impl View {
    /// The word under which the view is shown.
    pub open spec fn word(self) -> Seq<char> {
        match self {
            View::Overview => "overview"@,
            View::Runs => "runs"@,
            View::Sessions => "sessions"@,
            View::Approvals => "approvals"@,
            View::Models => "models"@,
            View::Failures => "failures"@,
            View::Receipts => "receipts"@,
        }
    }

    /// The word under which the view is shown.
    pub fn label(self) -> (label: &'static str)
        ensures
            label@ == self.word(),
    {
        match self {
            View::Overview => "overview",
            View::Runs => "runs",
            View::Sessions => "sessions",
            View::Approvals => "approvals",
            View::Models => "models",
            View::Failures => "failures",
            View::Receipts => "receipts",
        }
    }

    /// Every view, in the order of their number keys.
    pub open spec fn all() -> Seq<View> {
        seq![
            View::Overview,
            View::Runs,
            View::Sessions,
            View::Approvals,
            View::Models,
            View::Failures,
            View::Receipts,
        ]
    }

    /// The view at a place in the order of number keys.
    pub fn at(index: usize) -> (view: Option<View>)
        ensures
            index < View::all().len() ==> view == Some(View::all()[index as int]),
            index >= View::all().len() ==> view is None,
    {
        match index {
            0 => Some(View::Overview),
            1 => Some(View::Runs),
            2 => Some(View::Sessions),
            3 => Some(View::Approvals),
            4 => Some(View::Models),
            5 => Some(View::Failures),
            6 => Some(View::Receipts),
            _ => None,
        }
    }
}

/// How attached sessions share the screen.
#[derive(Clone, Copy, Debug, PartialEq, Eq, Structural)]
pub enum PaneLayout {
    Grid,
    Rows,
    Columns,
    Tabs,
    Focused,
}

impl PaneLayout {
    /// The layout that follows in the cycle.
    pub open spec fn successor(self) -> PaneLayout {
        match self {
            PaneLayout::Grid => PaneLayout::Rows,
            PaneLayout::Rows => PaneLayout::Columns,
            PaneLayout::Columns => PaneLayout::Tabs,
            PaneLayout::Tabs => PaneLayout::Focused,
            PaneLayout::Focused => PaneLayout::Grid,
        }
    }

    /// The layout that follows in the cycle.
    pub fn next(self) -> (next: PaneLayout)
        ensures
            next == self.successor(),
    {
        match self {
            PaneLayout::Grid => PaneLayout::Rows,
            PaneLayout::Rows => PaneLayout::Columns,
            PaneLayout::Columns => PaneLayout::Tabs,
            PaneLayout::Tabs => PaneLayout::Focused,
            PaneLayout::Focused => PaneLayout::Grid,
        }
    }

    /// The word under which the layout is shown and saved.
    pub open spec fn word(self) -> Seq<char> {
        match self {
            PaneLayout::Grid => "grid"@,
            PaneLayout::Rows => "rows"@,
            PaneLayout::Columns => "columns"@,
            PaneLayout::Tabs => "tabs"@,
            PaneLayout::Focused => "focused"@,
        }
    }

    /// The word under which the layout is shown and saved.
    pub fn label(self) -> (label: &'static str)
        ensures
            label@ == self.word(),
    {
        match self {
            PaneLayout::Grid => "grid",
            PaneLayout::Rows => "rows",
            PaneLayout::Columns => "columns",
            PaneLayout::Tabs => "tabs",
            PaneLayout::Focused => "focused",
        }
    }

    /// The layout that a word stands for.
    pub fn parse(value: &str) -> (layout: Option<PaneLayout>)
        ensures
            forall|named: PaneLayout|
                (#[trigger] named.word() == value@) <==> layout == Some(named),
    {
        proof {
            assert forall|left: PaneLayout, right: PaneLayout| #[trigger]
                left.word() == #[trigger] right.word() implies left == right by {
                layout_words_are_distinct(left, right);
            }
            assert(PaneLayout::Grid.word() == "grid"@);
            assert(PaneLayout::Rows.word() == "rows"@);
            assert(PaneLayout::Columns.word() == "columns"@);
            assert(PaneLayout::Tabs.word() == "tabs"@);
            assert(PaneLayout::Focused.word() == "focused"@);
        }
        if same_text(value, "grid") {
            Some(PaneLayout::Grid)
        } else if same_text(value, "rows") {
            Some(PaneLayout::Rows)
        } else if same_text(value, "columns") {
            Some(PaneLayout::Columns)
        } else if same_text(value, "tabs") {
            Some(PaneLayout::Tabs)
        } else if same_text(value, "focused") {
            Some(PaneLayout::Focused)
        } else {
            None
        }
    }
}

/// No two layouts share a word, so a saved layout reads back as the layout that was saved.
pub proof fn layout_words_are_distinct(left: PaneLayout, right: PaneLayout)
    requires
        left.word() == right.word(),
    ensures
        left == right,
{
    reveal_strlit("grid");
    reveal_strlit("rows");
    reveal_strlit("columns");
    reveal_strlit("tabs");
    reveal_strlit("focused");
    assert("grid"@[0] == 'g');
    assert("rows"@[0] == 'r');
    assert("columns"@[0] == 'c');
    assert("tabs"@[0] == 't');
    assert("focused"@[0] == 'f');
}

/// Cycling through the layouts five times comes back to the layout it began with, and no sooner.
pub proof fn layouts_cycle(layout: PaneLayout)
    ensures
        layout.successor() != layout,
        layout.successor().successor() != layout,
        layout.successor().successor().successor() != layout,
        layout.successor().successor().successor().successor() != layout,
        layout.successor().successor().successor().successor().successor() == layout,
{
}

/// How far the shown state can be trusted.
#[derive(Clone, Copy, Debug, PartialEq, Eq, Structural)]
pub enum ConnectionState {
    Live,
    Stale,
    Reconnecting,
    UpgradeRequired,
}

impl ConnectionState {
    /// The words under which the connection is shown.
    pub open spec fn words(self) -> Seq<char> {
        match self {
            ConnectionState::Live => "LIVE"@,
            ConnectionState::Stale => "STALE / READ-ONLY"@,
            ConnectionState::Reconnecting => "RECONNECTING / READ-ONLY"@,
            ConnectionState::UpgradeRequired => "UPGRADE REQUIRED / READ-ONLY"@,
        }
    }

    /// The words under which the connection is shown.
    pub fn label(self) -> (label: &'static str)
        ensures
            label@ == self.words(),
    {
        match self {
            ConnectionState::Live => "LIVE",
            ConnectionState::Stale => "STALE / READ-ONLY",
            ConnectionState::Reconnecting => "RECONNECTING / READ-ONLY",
            ConnectionState::UpgradeRequired => "UPGRADE REQUIRED / READ-ONLY",
        }
    }

    /// Whether mutation controls are enabled: only on a live connection.
    pub fn mutations_allowed(self) -> (allowed: bool)
        ensures
            allowed == (self == ConnectionState::Live),
    {
        matches!(self, ConnectionState::Live)
    }
}

/// A connection on which mutations are disabled is visibly read-only, and a live one is not.
pub proof fn read_only_is_visible(connection: ConnectionState)
    ensures
        connection != ConnectionState::Live <==> contains_text(connection.words(), "READ-ONLY"@),
{
    reveal_strlit("LIVE");
    reveal_strlit("STALE / READ-ONLY");
    reveal_strlit("RECONNECTING / READ-ONLY");
    reveal_strlit("UPGRADE REQUIRED / READ-ONLY");
    reveal_strlit("READ-ONLY");
    let words = connection.words();
    let needle = "READ-ONLY"@;
    if connection != ConnectionState::Live {
        let at = words.len() - needle.len();
        assert(words.subrange(at, at + needle.len()) =~= needle);
        assert(crate::text::stands_at(words, needle, at));
    } else {
        assert(forall|at: int| !crate::text::stands_at(words, needle, at));
    }
}

/// What a batch of events did.
#[derive(Clone, Copy, Debug, PartialEq, Eq, Structural)]
pub enum ApplyEvents {
    Applied,
    DuplicateOnly,
    ResyncRequired,
}

/// The text by which a resource is selected and recognised again.
pub open spec fn key_of(coordinate: CoordinateModel) -> Seq<char> {
    coordinate.authority.name() + "/"@ + coordinate.kind.name() + "/"@ + coordinate.id
}

/// The text by which a resource is selected and recognised again.
pub fn coordinate_key(coordinate: &ResourceCoordinate) -> (key: String)
    ensures
        key@ == key_of(coordinate@),
{
    let mut key = coordinate.authority.as_str().to_owned();
    key.append("/");
    key.append(coordinate.kind.as_str());
    key.append("/");
    key.append(coordinate.id.as_str());
    key
}

/// The words that mark a summary as a failure.
pub open spec fn failure_words() -> Seq<Seq<char>> {
    seq![
        "failed"@,
        "failure"@,
        "error"@,
        "rejected"@,
        "lost"@,
        "quarantine"@,
        "denied"@,
    ]
}

/// Whether a record shows a failure: it is not current, or its summary says so in any case of
/// letters.
pub open spec fn shows_failure(record: ResourceRecord) -> bool {
    ||| !record.freshness.fresh()
    ||| exists|i: int|
        0 <= i < failure_words().len() && contains_text(
            record.summary@.map_values(|c: char| ascii_lower(c)),
            #[trigger] failure_words()[i],
        )
}

/// Whether a record shows a failure.
pub fn is_failure(record: &ResourceRecord) -> (failure: bool)
    ensures
        failure == shows_failure(*record),
{
    let summary = ascii_lowercase(record.summary.as_str());
    let ghost words = failure_words();
    proof {
        assert(words[0] == "failed"@ && words[1] == "failure"@ && words[2] == "error"@ && words[3]
            == "rejected"@ && words[4] == "lost"@ && words[5] == "quarantine"@ && words[6]
            == "denied"@);
    }
    !record.freshness.is_fresh() || contains(&summary, "failed") || contains(&summary, "failure")
        || contains(&summary, "error") || contains(&summary, "rejected") || contains(
        &summary,
        "lost",
    ) || contains(&summary, "quarantine") || contains(&summary, "denied")
}


/// One attached session and what its observer keeps of it.
#[derive(Clone, Debug)]
pub struct SessionPane {
    pub record: SessionRecord,
    pub attachment: Attachment,
    pub control: Option<ControlLease>,
    pub timeline: VecDeque<ResourceRecord>,
    pub unread: usize,
    pub pinned: bool,
}

/// One attached session, over sequences.
#[verifier::ext_equal]
pub struct PaneModel {
    pub record: SessionRecord,
    pub attachment: Attachment,
    pub control: Option<ControlLease>,
    pub timeline: Seq<ResourceRecord>,
    pub unread: usize,
    pub pinned: bool,
}

impl vstd::view::View for SessionPane {
    type V = PaneModel;

    open spec fn view(&self) -> PaneModel {
        PaneModel {
            record: self.record,
            attachment: self.attachment,
            control: self.control,
            timeline: self.timeline@,
            unread: self.unread,
            pinned: self.pinned,
        }
    }
}

impl SessionPane {
    /// The text by which the pane's session is recognised.
    pub fn key(&self) -> (key: String)
        ensures
            key@ == self@.key(),
    {
        coordinate_key(&self.record.session.resource)
    }
}

impl PaneModel {
    /// The text by which the pane's session is recognised.
    pub open spec fn key(self) -> Seq<char> {
        key_of(self.record.session.resource@)
    }

    /// Whether an event on a resource is shown in this pane: it is the pane's session, or the
    /// run that the session belongs to.
    pub open spec fn follows(self, resource: CoordinateModel) -> bool {
        ||| self.record.session.resource@ == resource
        ||| self.record.run is Some && self.record.run->0@ == resource
    }

    /// The pane after an event on a resource.
    pub open spec fn notified(self, record: ResourceRecord, focused: bool) -> PaneModel {
        if self.follows(record.resource@) {
            PaneModel {
                timeline: pushed_within(self.timeline, record, MAX_TIMELINE_EVENTS as nat),
                unread: if focused || self.unread == usize::MAX {
                    self.unread
                } else {
                    (self.unread + 1) as usize
                },
                ..self
            }
        } else {
            self
        }
    }

    /// The pane with the session as a newer overview shows it.
    pub open spec fn refreshed(self, sessions: Seq<SessionRecord>, reconnected: bool) -> PaneModel {
        PaneModel {
            record: match find_session(sessions, self.record.session.resource@) {
                Some(index) => sessions[index],
                None => self.record,
            },
            control: if reconnected {
                None
            } else {
                self.control
            },
            ..self
        }
    }

    /// The pane once a lease that has run out is dropped.
    pub open spec fn expired(self, now_ms: i64) -> PaneModel {
        PaneModel {
            control: if self.control is Some && self.control->0.expires_at <= now_ms {
                None
            } else {
                self.control
            },
            ..self
        }
    }
}

/// A bounded history after one more entry: when it is full, the oldest entry leaves.
pub open spec fn pushed_within<T>(history: Seq<T>, entry: T, limit: nat) -> Seq<T> {
    if history.len() == limit {
        history.skip(1).push(entry)
    } else {
        history.push(entry)
    }
}

/// The texts other than the given one.
pub open spec fn without(texts: Seq<Seq<char>>, text: Seq<char>) -> Seq<Seq<char>> {
    texts.filter(|other: Seq<char>| other != text)
}

/// Whether `index` is the first place in `sessions` that holds the given session.
pub open spec fn first_session(
    sessions: Seq<SessionRecord>,
    resource: CoordinateModel,
    index: int,
) -> bool {
    &&& 0 <= index < sessions.len()
    &&& sessions[index].session.resource@ == resource
    &&& forall|before: int|
        0 <= before < index ==> (#[trigger] sessions[before]).session.resource@ != resource
}

/// The first place in `sessions` that holds the given session.
pub open spec fn find_session(sessions: Seq<SessionRecord>, resource: CoordinateModel) -> Option<
    int,
> {
    if exists|index: int| first_session(sessions, resource, index) {
        Some(choose|index: int| first_session(sessions, resource, index))
    } else {
        None
    }
}

/// The first place in `sessions` that holds the given session.
pub fn session_position(sessions: &Vec<SessionRecord>, resource: &ResourceCoordinate) -> (position:
    Option<usize>)
    ensures
        match position {
            Some(index) => find_session(sessions@, resource@) == Some(index as int)
                && first_session(sessions@, resource@, index as int),
            None => find_session(sessions@, resource@) is None && forall|i: int|
                0 <= i < sessions@.len() ==> (#[trigger] sessions@[i]).session.resource@
                    != resource@,
        },
{
    let mut at: usize = 0;
    while at < sessions.len()
        invariant
            at <= sessions@.len(),
            forall|i: int|
                0 <= i < at ==> (#[trigger] sessions@[i]).session.resource@ != resource@,
        decreases sessions@.len() - at,
    {
        if sessions[at].session.resource.is_same(resource) {
            proof {
                assert(first_session(sessions@, resource@, at as int));
                let found = choose|index: int| first_session(sessions@, resource@, index);
                assert(found == at) by {
                    if found < at {
                        assert(sessions@[found].session.resource@ != resource@);
                    }
                    if at < found {
                        assert(sessions@[at as int].session.resource@ != resource@);
                    }
                }
            }
            return Some(at);
        }
        at += 1;
    }
    None
}

/// Whether `index` is the first place in `records` that holds the given resource.
pub open spec fn first_record(
    records: Seq<ResourceRecord>,
    resource: CoordinateModel,
    index: int,
) -> bool {
    &&& 0 <= index < records.len()
    &&& records[index].resource@ == resource
    &&& forall|before: int|
        0 <= before < index ==> (#[trigger] records[before]).resource@ != resource
}

/// The first place in `records` that holds the given resource.
pub open spec fn find_record(records: Seq<ResourceRecord>, resource: CoordinateModel) -> Option<
    int,
> {
    if exists|index: int| first_record(records, resource, index) {
        Some(choose|index: int| first_record(records, resource, index))
    } else {
        None
    }
}

/// The first place in `records` that holds the given resource.
pub fn record_position(records: &Vec<ResourceRecord>, resource: &ResourceCoordinate) -> (position:
    Option<usize>)
    ensures
        match position {
            Some(index) => find_record(records@, resource@) == Some(index as int) && first_record(
                records@,
                resource@,
                index as int,
            ),
            None => find_record(records@, resource@) is None && forall|i: int|
                0 <= i < records@.len() ==> (#[trigger] records@[i]).resource@ != resource@,
        },
{
    let mut at: usize = 0;
    while at < records.len()
        invariant
            at <= records@.len(),
            forall|i: int| 0 <= i < at ==> (#[trigger] records@[i]).resource@ != resource@,
        decreases records@.len() - at,
    {
        if records[at].resource.is_same(resource) {
            proof {
                assert(first_record(records@, resource@, at as int));
                let found = choose|index: int| first_record(records@, resource@, index);
                assert(found == at) by {
                    if found < at {
                        assert(records@[found].resource@ != resource@);
                    }
                    if at < found {
                        assert(records@[at as int].resource@ != resource@);
                    }
                }
            }
            return Some(at);
        }
        at += 1;
    }
    None
}

/// The panes, over sequences.
pub open spec fn pane_models(panes: Seq<SessionPane>) -> Seq<PaneModel> {
    panes.map_values(|pane: SessionPane| pane@)
}

/// Whether no session is attached twice.
pub open spec fn distinct_panes(panes: Seq<PaneModel>) -> bool {
    forall|i: int, j: int|
        0 <= i < j < panes.len() ==> (#[trigger] panes[i]).key() != (#[trigger] panes[j]).key()
}

/// Everything the cockpit knows.
#[derive(Clone, Debug)]
pub struct CockpitState {
    pub overview: OperatorOverview,
    pub view: View,
    pub connection: ConnectionState,
    pub status: String,
    pub selected_key: Option<String>,
    pub selected_index: usize,
    pub panes: Vec<SessionPane>,
    pub focused_pane: usize,
    pub pane_layout: PaneLayout,
    pub receipts: VecDeque<ActionReceipt>,
    pub pending_receipts: VecDeque<String>,
    pub resource_cursor: PlatformCursor,
    pub show_help: bool,
    pub high_contrast: bool,
}

/// Everything the cockpit knows, over sequences.
#[verifier::ext_equal]
pub struct CockpitModel {
    pub overview: OverviewModel,
    pub view: View,
    pub connection: ConnectionState,
    pub status: Seq<char>,
    pub selected_key: Option<Seq<char>>,
    pub selected_index: nat,
    pub panes: Seq<PaneModel>,
    pub focused_pane: nat,
    pub pane_layout: PaneLayout,
    pub receipts: Seq<ActionReceipt>,
    pub pending_receipts: Seq<Seq<char>>,
    pub resource_cursor: PlatformCursor,
    pub show_help: bool,
    pub high_contrast: bool,
}

impl vstd::view::View for CockpitState {
    type V = CockpitModel;

    open spec fn view(&self) -> CockpitModel {
        CockpitModel {
            overview: self.overview@,
            view: self.view,
            connection: self.connection,
            status: self.status@,
            selected_key: self.selected_key.deep_view(),
            selected_index: self.selected_index as nat,
            panes: pane_models(self.panes@),
            focused_pane: self.focused_pane as nat,
            pane_layout: self.pane_layout,
            receipts: self.receipts@,
            pending_receipts: self.pending_receipts.deep_view(),
            resource_cursor: self.resource_cursor,
            show_help: self.show_help,
            high_contrast: self.high_contrast,
        }
    }
}

/// Whether a view shows a record.
pub open spec fn shown_in(record: ResourceRecord, view: View) -> bool {
    match view {
        View::Overview => !(record.resource.kind is Node) || record.freshness.fresh(),
        View::Runs => record.resource.kind is Run,
        View::Sessions => record.resource.kind is Session,
        View::Approvals => record.resource.kind is Approval,
        View::Models => record.resource.kind is Model,
        View::Failures => shows_failure(record),
        View::Receipts => record.resource.kind is Receipt,
    }
}

fn is_shown_in(record: &ResourceRecord, view: View) -> (shown: bool)
    ensures
        shown == shown_in(*record, view),
{
    match view {
        View::Overview => !matches!(record.resource.kind, ResourceKind::Node)
            || record.freshness.is_fresh(),
        View::Runs => matches!(record.resource.kind, ResourceKind::Run),
        View::Sessions => matches!(record.resource.kind, ResourceKind::Session),
        View::Approvals => matches!(record.resource.kind, ResourceKind::Approval),
        View::Models => matches!(record.resource.kind, ResourceKind::Model),
        View::Failures => is_failure(record),
        View::Receipts => matches!(record.resource.kind, ResourceKind::Receipt),
    }
}

/// Whether a record that is no registry entry stands among `records` under the given key.
pub open spec fn lists_key(records: Seq<ResourceRecord>, key: Seq<char>) -> bool {
    exists|i: int|
        0 <= i < records.len() && !registers_action(#[trigger] records[i]) && key_of(
            records[i].resource@,
        ) == key
}

/// The records that a view shows, in order: registry entries are left out, and of several
/// records with one key only the first counts.
pub open spec fn visible(records: Seq<ResourceRecord>, view: View) -> Seq<ResourceRecord>
    decreases records.len(),
{
    if records.len() == 0 {
        Seq::empty()
    } else {
        let before = records.drop_last();
        let record = records.last();
        if !registers_action(record) && !lists_key(before, key_of(record.resource@)) && shown_in(
            record,
            view,
        ) {
            visible(before, view).push(record)
        } else {
            visible(before, view)
        }
    }
}

/// Whether `index` is the place of the given key in a list of records with distinct keys.
pub open spec fn stands_under(records: Seq<ResourceRecord>, key: Seq<char>, index: int) -> bool {
    0 <= index < records.len() && key_of(records[index].resource@) == key
}

/// No two records that are shown together share a key.
pub proof fn visible_keys_are_distinct(
    records: Seq<ResourceRecord>,
    view: View,
    left: int,
    right: int,
)
    requires
        0 <= left < visible(records, view).len(),
        0 <= right < visible(records, view).len(),
        key_of(visible(records, view)[left].resource@) == key_of(
            visible(records, view)[right].resource@,
        ),
    ensures
        left == right,
    decreases records.len(),
{
    let before = records.drop_last();
    let earlier = visible(before, view);
    if left < earlier.len() {
        visible_records_are_listed(before, view, left);
    }
    if right < earlier.len() {
        visible_records_are_listed(before, view, right);
    }
    if left < earlier.len() && right < earlier.len() {
        visible_keys_are_distinct(before, view, left, right);
    }
}

/// Whatever a view shows is a record that belongs to the view and is no registry entry.
pub proof fn visible_records_are_listed(records: Seq<ResourceRecord>, view: View, index: int)
    requires
        0 <= index < visible(records, view).len(),
    ensures
        lists_key(records, key_of(visible(records, view)[index].resource@)),
        shown_in(visible(records, view)[index], view),
        records.contains(visible(records, view)[index]),
        !registers_action(visible(records, view)[index]),
    decreases records.len(),
{
    let before = records.drop_last();
    let shown = visible(records, view)[index];
    if index < visible(before, view).len() {
        visible_records_are_listed(before, view, index);
        let i = choose|i: int|
            0 <= i < before.len() && !registers_action(#[trigger] before[i]) && key_of(
                before[i].resource@,
            ) == key_of(shown.resource@);
        assert(records[i] == before[i]);
        let j = choose|j: int| 0 <= j < before.len() && before[j] == shown;
        assert(records[j] == shown);
    } else {
        let last = records.len() - 1;
        assert(records[last] == shown);
    }
}

/// Whatever belongs to a view is shown by it, unless a record before it holds its key.
pub proof fn listed_records_are_visible(records: Seq<ResourceRecord>, view: View, index: int)
    requires
        0 <= index < records.len(),
        !registers_action(records[index]),
        shown_in(records[index], view),
        !lists_key(records.take(index), key_of(records[index].resource@)),
    ensures
        visible(records, view).contains(records[index]),
    decreases records.len(),
{
    let before = records.drop_last();
    let shown = visible(records, view);
    if index == records.len() - 1 {
        assert(records.take(index) =~= before);
        assert(shown.last() == records[index]);
    } else {
        assert(before.take(index) =~= records.take(index));
        listed_records_are_visible(before, view, index);
        let place = choose|place: int|
            0 <= place < visible(before, view).len() && visible(before, view)[place]
                == records[index];
        assert(shown[place] == records[index]);
    }
}

/// A place moved by `delta` and kept between the first and the last place.
pub open spec fn moved(place: nat, delta: int, last: nat) -> nat {
    if place + delta < 0 {
        0
    } else if place + delta > last {
        last
    } else {
        (place + delta) as nat
    }
}

fn move_place(place: usize, delta: isize, last: usize) -> (next: usize)
    ensures
        next == moved(place as nat, delta as int, last as nat),
{
    match place.checked_add_signed(delta) {
        Some(next) => if next > last {
            last
        } else {
            next
        },
        None => if delta < 0 {
            0
        } else {
            last
        },
    }
}

impl CockpitModel {
    /// Every record of the overview: the resources, then the sessions.
    pub open spec fn records(self) -> Seq<ResourceRecord> {
        self.overview.resources + self.overview.sessions.map_values(
            |session: SessionRecord| session.session,
        )
    }

    /// The records that the current view shows.
    pub open spec fn shown(self) -> Seq<ResourceRecord> {
        visible(self.records(), self.view)
    }

    /// The record under the selection.
    pub open spec fn selected(self) -> Option<ResourceRecord> {
        if self.selected_index < self.shown().len() {
            Some(self.shown()[self.selected_index as int])
        } else {
            None
        }
    }

    /// The session under the selection.
    pub open spec fn chosen_session(self) -> Option<SessionRecord> {
        match self.selected() {
            Some(record) => match find_session(self.overview.sessions, record.resource@) {
                Some(index) => Some(self.overview.sessions[index]),
                None => None,
            },
            None => None,
        }
    }

    /// Whether the state is sound: everything it keeps is bounded, no session is attached twice,
    /// no receipt is awaited twice, and the focus stands on a pane where there is one.
    pub open spec fn sound(self) -> bool {
        &&& self.panes.len() <= MAX_PANES
        &&& forall|i: int|
            0 <= i < self.panes.len() ==> (#[trigger] self.panes[i]).timeline.len()
                <= MAX_TIMELINE_EVENTS
        &&& self.receipts.len() <= MAX_RECEIPTS
        &&& self.pending_receipts.len() <= MAX_PENDING_RECEIPTS
        &&& self.pending_receipts.no_duplicates()
        &&& distinct_panes(self.panes)
        &&& self.focus_stands()
    }

    /// Whether the focus stands on a pane where there is one.
    pub open spec fn focus_stands(self) -> bool {
        if self.panes.len() == 0 {
            self.focused_pane == 0
        } else {
            self.has_focus()
        }
    }

    /// The state with other words in the status line.
    pub open spec fn saying(self, status: Seq<char>) -> CockpitModel {
        CockpitModel { status, ..self }
    }

    /// The state with the selection on the record that holds the selected key, or near the place
    /// where it was where no shown record holds it.
    pub open spec fn stabilized(self) -> CockpitModel {
        let shown = self.shown();
        if shown.len() == 0 {
            CockpitModel { selected_index: 0, selected_key: None, ..self }
        } else if self.selected_key is Some && exists|index: int|
            stands_under(shown, self.selected_key->0, index) {
            let index = choose|index: int| stands_under(shown, self.selected_key->0, index);
            CockpitModel { selected_index: index as nat, ..self }
        } else {
            let index = if self.selected_index < shown.len() {
                self.selected_index
            } else {
                (shown.len() - 1) as nat
            };
            CockpitModel {
                selected_index: index,
                selected_key: Some(key_of(shown[index as int].resource@)),
                ..self
            }
        }
    }
}

/// Whether `index` is the place of the pane with the given key in panes with distinct keys.
pub open spec fn first_pane(panes: Seq<PaneModel>, key: Seq<char>, index: int) -> bool {
    &&& 0 <= index < panes.len()
    &&& panes[index].key() == key
    &&& forall|before: int| 0 <= before < index ==> (#[trigger] panes[before]).key() != key
}

/// The first pane with the given key.
pub open spec fn find_pane(panes: Seq<PaneModel>, key: Seq<char>) -> Option<int> {
    if exists|index: int| first_pane(panes, key, index) {
        Some(choose|index: int| first_pane(panes, key, index))
    } else {
        None
    }
}

/// The resources after a newer record of one of them: an older revision changes nothing, and a
/// resource that is not there yet comes last.
pub open spec fn with_record(resources: Seq<ResourceRecord>, record: ResourceRecord) -> Seq<
    ResourceRecord,
> {
    match find_record(resources, record.resource@) {
        Some(index) => if record.freshness.revision >= resources[index].freshness.revision {
            resources.update(index, record)
        } else {
            resources
        },
        None => resources.push(record),
    }
}

/// How far a batch of events was applied.
#[verifier::ext_equal]
pub struct Replay {
    pub state: CockpitModel,
    /// The sequence number of the last event that is reflected in the state.
    pub reached: u64,
    pub applied: bool,
    pub gap: bool,
}

impl CockpitModel {
    /// The state on a newer overview.
    pub open spec fn replaced(self, overview: OverviewModel, reconnected: bool) -> CockpitModel {
        CockpitModel {
            overview,
            resource_cursor: overview.cursor,
            panes: self.panes.map_values(
                |pane: PaneModel| pane.refreshed(overview.sessions, reconnected),
            ),
            connection: ConnectionState::Live,
            status: "reconciled with authoritative snapshot"@,
            ..self
        }.stabilized()
    }

    /// The state once leases that have run out are dropped.
    pub open spec fn expired(self, now_ms: i64) -> CockpitModel {
        CockpitModel {
            panes: self.panes.map_values(|pane: PaneModel| pane.expired(now_ms)),
            ..self
        }
    }

    /// The state that waits for the receipt of a submission whose outcome is unknown.
    pub open spec fn awaiting(self, key: Seq<char>) -> CockpitModel {
        if self.pending_receipts.contains(key) {
            self
        } else {
            CockpitModel {
                pending_receipts: pushed_within(
                    self.pending_receipts,
                    key,
                    MAX_PENDING_RECEIPTS as nat,
                ),
                ..self
            }
        }
    }

    /// The state that no longer waits for a receipt.
    pub open spec fn resolved(self, key: Seq<char>) -> CockpitModel {
        CockpitModel {
            pending_receipts: without(self.pending_receipts, key),
            ..self
        }
    }

    /// The state on another view, with its first record selected.
    pub open spec fn viewing(self, view: View) -> CockpitModel {
        CockpitModel { view, selected_index: 0, selected_key: None, ..self }.stabilized()
    }

    /// The state with the selection moved by `delta` records and kept on a record.
    pub open spec fn moved_selection(self, delta: int) -> CockpitModel {
        let shown = self.shown();
        if shown.len() == 0 {
            CockpitModel { selected_index: 0, selected_key: None, ..self }
        } else {
            let index = moved(self.selected_index, delta, (shown.len() - 1) as nat);
            CockpitModel {
                selected_index: index,
                selected_key: Some(key_of(shown[index as int].resource@)),
                ..self
            }
        }
    }

    /// Whether a pane is focused.
    pub open spec fn has_focus(self) -> bool {
        self.focused_pane < self.panes.len()
    }

    /// The focused pane.
    pub open spec fn focus(self) -> PaneModel
        recommends
            self.has_focus(),
    {
        self.panes[self.focused_pane as int]
    }

    /// The state with the focused pane replaced.
    pub open spec fn with_focus(self, pane: PaneModel) -> CockpitModel {
        CockpitModel { panes: self.panes.update(self.focused_pane as int, pane), ..self }
    }

    /// The state with the focused pane's pin turned over.
    pub open spec fn pin_toggled(self) -> CockpitModel {
        if self.has_focus() {
            let pinned = !self.focus().pinned;
            self.with_focus(PaneModel { pinned, ..self.focus() }).saying(
                if pinned {
                    "focused pane pinned in saved workspace"@
                } else {
                    "focused pane unpinned"@
                },
            )
        } else {
            self.saying("no focused session pane"@)
        }
    }

    /// The state with one more attached session: a session that is attached already is focused,
    /// and a session beyond the limit is left out.
    pub open spec fn attached(self, record: SessionRecord, attachment: Attachment) -> CockpitModel {
        match find_pane(self.panes, key_of(record.session.resource@)) {
            Some(index) => CockpitModel { focused_pane: index as nat, ..self },
            None => if self.panes.len() >= MAX_PANES {
                self.saying("pane limit reached (12)"@)
            } else {
                CockpitModel {
                    panes: self.panes.push(
                        PaneModel {
                            record,
                            attachment,
                            control: None,
                            timeline: Seq::empty(),
                            unread: 0,
                            pinned: false,
                        },
                    ),
                    focused_pane: self.panes.len(),
                    ..self
                }
            },
        }
    }

    /// Whether attaching a session opens a pane.
    pub open spec fn opens_pane(self, record: SessionRecord) -> bool {
        find_pane(self.panes, key_of(record.session.resource@)) is None && self.panes.len()
            < MAX_PANES
    }

    /// The place of the pane that is removed next.
    pub open spec fn removable(self) -> int {
        if self.has_focus() {
            self.focused_pane as int
        } else {
            self.panes.len() - 1
        }
    }

    /// The state without the focused pane.
    pub open spec fn focus_removed(self) -> CockpitModel {
        if self.panes.len() == 0 {
            self
        } else {
            let rest = self.panes.remove(self.removable());
            CockpitModel {
                panes: rest,
                focused_pane: if self.focused_pane < rest.len() {
                    self.focused_pane
                } else if rest.len() == 0 {
                    0
                } else {
                    (rest.len() - 1) as nat
                },
                ..self
            }
        }
    }

    /// The state with the focus moved by `delta` panes; what the newly focused pane had unread
    /// counts as read.
    pub open spec fn focus_moved(self, delta: int) -> CockpitModel {
        if self.panes.len() == 0 {
            CockpitModel { focused_pane: 0, ..self }
        } else {
            let moved_to = CockpitModel {
                focused_pane: moved(self.focused_pane, delta, (self.panes.len() - 1) as nat),
                ..self
            };
            moved_to.with_focus(PaneModel { unread: 0, ..moved_to.focus() })
        }
    }

    /// The state with the focused pane moved by `delta` places.
    pub open spec fn focus_reordered(self, delta: int) -> CockpitModel {
        if self.panes.len() < 2 {
            self
        } else {
            let next = moved(self.focused_pane, delta, (self.panes.len() - 1) as nat);
            CockpitModel {
                panes: self.panes.update(self.focused_pane as int, self.panes[next as int]).update(
                    next as int,
                    self.focus(),
                ),
                focused_pane: next,
                ..self
            }
        }
    }

    /// The state with one more receipt, the oldest leaving when there are too many.
    pub open spec fn receiving(self, receipt: ActionReceipt) -> CockpitModel {
        CockpitModel {
            receipts: pushed_within(self.receipts, receipt, MAX_RECEIPTS as nat),
            ..self
        }.saying(
            receipt.action.name() + " "@ + receipt.outcome@ + " for "@ + receipt.target.id@,
        )
    }

    /// The state after one event.
    pub open spec fn notified(self, record: ResourceRecord) -> CockpitModel {
        CockpitModel {
            overview: OverviewModel {
                resources: with_record(self.overview.resources, record),
                ..self.overview
            },
            panes: self.panes.map(
                |index: int, pane: PaneModel| pane.notified(record, index == self.focused_pane),
            ),
            ..self
        }
    }

    /// The state after a batch of events: one that is reflected already is passed over, one that
    /// follows directly is applied, and one that leaves a gap ends the batch.
    pub open spec fn replayed(self, events: Seq<PlatformEvent>, reached: u64, applied: bool) -> Replay
        decreases events.len(),
    {
        if events.len() == 0 {
            Replay { state: self, reached, applied, gap: false }
        } else {
            let event = events[0];
            let rest = events.skip(1);
            if event.cursor.sequence <= reached {
                self.replayed(rest, reached, applied)
            } else if event.cursor.sequence != reached + 1 {
                Replay { state: self, reached, applied, gap: true }
            } else {
                self.notified(event.resource).replayed(rest, event.cursor.sequence, true)
            }
        }
    }

    /// Whether a subscription leaves the state behind the authority.
    pub open spec fn falls_behind(self, subscription: Subscription) -> bool {
        let replay = self.replayed(
            subscription.events@,
            self.resource_cursor.sequence,
            false,
        );
        replay.gap || subscription.cursor.sequence < replay.reached
    }

    /// The state after a subscription's answer.
    pub open spec fn subscribed(self, subscription: Subscription) -> CockpitModel {
        let replay = self.replayed(
            subscription.events@,
            self.resource_cursor.sequence,
            false,
        );
        if replay.gap {
            CockpitModel { connection: ConnectionState::Stale, ..replay.state }.saying(
                "event gap detected; requesting fresh snapshot"@,
            )
        } else if subscription.cursor.sequence < replay.reached {
            CockpitModel { connection: ConnectionState::Stale, ..replay.state }.saying(
                "subscription cursor moved backwards"@,
            )
        } else {
            CockpitModel {
                resource_cursor: subscription.cursor,
                connection: ConnectionState::Live,
                ..replay.state
            }.stabilized()
        }
    }

    /// What a subscription's answer amounts to.
    pub open spec fn subscription_outcome(self, subscription: Subscription) -> ApplyEvents {
        let replay = self.replayed(
            subscription.events@,
            self.resource_cursor.sequence,
            false,
        );
        if self.falls_behind(subscription) {
            ApplyEvents::ResyncRequired
        } else if replay.applied {
            ApplyEvents::Applied
        } else {
            ApplyEvents::DuplicateOnly
        }
    }
}

/// Whether a list of keys holds exactly the keys under which records are listed.
pub open spec fn covers_keys(seen: Seq<String>, records: Seq<ResourceRecord>) -> bool {
    &&& forall|i: int| 0 <= i < seen.len() ==> lists_key(records, (#[trigger] seen[i])@)
    &&& forall|j: int|
        0 <= j < records.len() && !registers_action(#[trigger] records[j]) ==> exists|i: int|
            0 <= i < seen.len() && (#[trigger] seen[i])@ == key_of(records[j].resource@)
}

fn note_key(
    record: &ResourceRecord,
    Ghost(records): Ghost<Seq<ResourceRecord>>,
    seen: &mut Vec<String>,
) -> (listed: bool)
    requires
        covers_keys(old(seen)@, records),
    ensures
        covers_keys(final(seen)@, records.push(*record)),
        listed == (!registers_action(*record) && !lists_key(records, key_of(record.resource@))),
{
    let ghost after = records.push(*record);
    let ghost before = seen@;
    proof {
        assert forall|key: Seq<char>| #[trigger] lists_key(records, key) implies lists_key(
            after,
            key,
        ) by {
            let i = choose|i: int|
                0 <= i < records.len() && !registers_action(#[trigger] records[i]) && key_of(
                    records[i].resource@,
                ) == key;
            assert(after[i] == records[i]);
        }
        assert(after[records.len() as int] == *record);
        assert forall|j: int|
            0 <= j < records.len() && !registers_action(#[trigger] after[j]) implies exists|i: int|
            0 <= i < before.len() && (#[trigger] before[i])@ == key_of(after[j].resource@) by {
            assert(records[j] == after[j]);
        }
    }
    if is_action_registration(record) {
        return false;
    }
    let key = coordinate_key(&record.resource);
    if text_position(seen, &key).is_some() {
        return false;
    }
    proof {
        assert(lists_key(after, key@));
        if lists_key(records, key@) {
            let j = choose|j: int|
                0 <= j < records.len() && !registers_action(#[trigger] records[j]) && key_of(
                    records[j].resource@,
                ) == key@;
            assert(!registers_action(records[j]));
        }
    }
    seen.push(key);
    proof {
        assert forall|j: int| 0 <= j < after.len() && !registers_action(#[trigger] after[j]) implies exists|
            i: int,
        |
            0 <= i < seen@.len() && (#[trigger] seen@[i])@ == key_of(after[j].resource@) by {
            if j < records.len() {
                let i = choose|i: int|
                    0 <= i < before.len() && (#[trigger] before[i])@ == key_of(after[j].resource@);
                assert(seen@[i] == before[i]);
            } else {
                assert(seen@[before.len() as int]@ == key_of(after[j].resource@));
            }
        }
    }
    true
}

/// The state under which a cockpit opens on an overview.
pub open spec fn opened(overview: OverviewModel) -> CockpitModel {
    CockpitModel {
        overview,
        view: View::Overview,
        connection: ConnectionState::Live,
        status: "connected"@,
        selected_key: None,
        selected_index: 0,
        panes: Seq::empty(),
        focused_pane: 0,
        pane_layout: PaneLayout::Grid,
        receipts: Seq::empty(),
        pending_receipts: Seq::empty(),
        resource_cursor: overview.cursor,
        show_help: false,
        high_contrast: false,
    }.stabilized()
}

impl CockpitState {
    /// A cockpit on an overview: connected, nothing attached, the first record selected.
    pub fn new(overview: OperatorOverview) -> (state: Self)
        ensures
            state@ == opened(overview@),
    {
        let resource_cursor = overview.cursor.clone();
        let mut state = CockpitState {
            overview,
            view: View::Overview,
            connection: ConnectionState::Live,
            status: "connected".to_owned(),
            selected_key: None,
            selected_index: 0,
            panes: Vec::new(),
            focused_pane: 0,
            pane_layout: PaneLayout::Grid,
            receipts: VecDeque::new(),
            pending_receipts: VecDeque::new(),
            resource_cursor,
            show_help: false,
            high_contrast: false,
        };
        proof {
            assert(state@ =~= CockpitModel {
                overview: overview@,
                view: View::Overview,
                connection: ConnectionState::Live,
                status: "connected"@,
                selected_key: None,
                selected_index: 0,
                panes: Seq::empty(),
                focused_pane: 0,
                pane_layout: PaneLayout::Grid,
                receipts: Seq::empty(),
                pending_receipts: Seq::empty(),
                resource_cursor: overview@.cursor,
                show_help: false,
                high_contrast: false,
            });
        }
        state.stabilize_selection();
        state
    }

    /// The records that the current view shows: registry entries are left out, and a record that
    /// stands both among the resources and among the sessions is shown once.
    pub fn visible_resources(&self) -> (shown: Vec<&ResourceRecord>)
        ensures
            shown@.unref() == self@.shown(),
    {
        let ghost records = self@.records();
        let ghost resources = self.overview.resources@.len() as int;
        let mut shown: Vec<&ResourceRecord> = Vec::new();
        let mut seen: Vec<String> = Vec::new();
        let mut at: usize = 0;
        proof {
            assert(shown@.unref() =~= visible(records.take(0), self.view));
        }
        while at < self.overview.resources.len()
            invariant
                at <= self.overview.resources@.len(),
                resources == self.overview.resources@.len(),
                records == self@.records(),
                shown@.unref() == visible(records.take(at as int), self.view),
                covers_keys(seen@, records.take(at as int)),
            decreases self.overview.resources@.len() - at,
        {
            let record = &self.overview.resources[at];
            let ghost before = records.take(at as int);
            let ghost earlier = shown@;
            let listed = note_key(record, Ghost(before), &mut seen);
            proof {
                assert(records[at as int] == *record);
                assert(records.take(at + 1) =~= before.push(*record));
                assert(before.push(*record).drop_last() =~= before);
            }
            if listed && is_shown_in(record, self.view) {
                shown.push(record);
                proof {
                    assert(shown@.unref() =~= earlier.unref().push(*record));
                }
            }
            at += 1;
        }
        let mut next: usize = 0;
        while next < self.overview.sessions.len()
            invariant
                next <= self.overview.sessions@.len(),
                resources == self.overview.resources@.len(),
                records == self@.records(),
                shown@.unref() == visible(records.take(resources + next), self.view),
                covers_keys(seen@, records.take(resources + next)),
            decreases self.overview.sessions@.len() - next,
        {
            let record = &self.overview.sessions[next].session;
            let ghost before = records.take(resources + next);
            let ghost earlier = shown@;
            let listed = note_key(record, Ghost(before), &mut seen);
            proof {
                assert(records[resources + next] == *record);
                assert(records.take(resources + next + 1) =~= before.push(*record));
                assert(before.push(*record).drop_last() =~= before);
            }
            if listed && is_shown_in(record, self.view) {
                shown.push(record);
                proof {
                    assert(shown@.unref() =~= earlier.unref().push(*record));
                }
            }
            next += 1;
        }
        proof {
            assert(records.take(resources + next) =~= records);
        }
        shown
    }

    /// Puts the selection on the record that holds the selected key, or near the place where it
    /// was where no shown record holds it.
    pub fn stabilize_selection(&mut self)
        ensures
            final(self)@ == old(self)@.stabilized(),
    {
        let ghost shown = self@.shown();
        let keys = shown_keys(self);
        if keys.len() == 0 {
            self.selected_index = 0;
            self.selected_key = None;
            return;
        }
        if let Some(key) = &self.selected_key {
            if let Some(index) = text_position(&keys, key) {
                proof {
                    assert(stands_under(shown, key@, index as int));
                    let chosen = choose|chosen: int| stands_under(shown, key@, chosen);
                    visible_keys_are_distinct(self@.records(), self.view, chosen, index as int);
                }
                self.selected_index = index;
                return;
            }
        }
        proof {
            if self.selected_key is Some {
                assert forall|index: int| !stands_under(shown, self.selected_key->0@, index) by {
                    if 0 <= index < shown.len() {
                        assert(keys@[index]@ == key_of(shown[index].resource@));
                    }
                }
            }
        }
        if self.selected_index >= keys.len() {
            self.selected_index = keys.len() - 1;
        }
        self.selected_key = Some(keys[self.selected_index].clone());
    }

    /// The record under the selection.
    pub fn selected_resource(&self) -> (record: Option<&ResourceRecord>)
        ensures
            match record {
                Some(record) => self@.selected() == Some(*record),
                None => self@.selected() is None,
            },
    {
        let shown = self.visible_resources();
        if self.selected_index < shown.len() {
            let record = shown[self.selected_index];
            proof {
                assert(shown@.unref()[self.selected_index as int] == *record);
            }
            Some(record)
        } else {
            None
        }
    }

    /// The session under the selection.
    pub fn selected_session(&self) -> (session: Option<&SessionRecord>)
        ensures
            match session {
                Some(session) => self@.chosen_session() == Some(*session),
                None => self@.chosen_session() is None,
            },
    {
        match self.selected_resource() {
            Some(record) => match session_position(&self.overview.sessions, &record.resource) {
                Some(index) => Some(&self.overview.sessions[index]),
                None => None,
            },
            None => None,
        }
    }
}

fn shown_keys(state: &CockpitState) -> (keys: Vec<String>)
    ensures
        keys@.len() == state@.shown().len(),
        forall|i: int|
            0 <= i < keys@.len() ==> (#[trigger] keys@[i])@ == key_of(state@.shown()[i].resource@),
{
    let shown = state.visible_resources();
    let mut keys: Vec<String> = Vec::new();
    let mut at: usize = 0;
    while at < shown.len()
        invariant
            at <= shown@.len(),
            keys@.len() == at,
            forall|i: int| 0 <= i < at ==> (#[trigger] keys@[i])@ == key_of(shown@[i].resource@),
        decreases shown@.len() - at,
    {
        keys.push(coordinate_key(&shown[at].resource));
        at += 1;
    }
    proof {
        assert(forall|i: int| 0 <= i < shown@.len() ==> shown@.unref()[i] == *shown@[i]);
    }
    keys
}

fn text_position(texts: &Vec<String>, text: &String) -> (position: Option<usize>)
    ensures
        match position {
            Some(index) => index < texts@.len() && texts@[index as int]@ == text@,
            None => forall|i: int| 0 <= i < texts@.len() ==> (#[trigger] texts@[i])@ != text@,
        },
{
    let mut at: usize = 0;
    while at < texts.len()
        invariant
            at <= texts@.len(),
            forall|i: int| 0 <= i < at ==> (#[trigger] texts@[i])@ != text@,
        decreases texts@.len() - at,
    {
        if texts[at] == *text {
            return Some(at);
        }
        at += 1;
    }
    None
}

impl CockpitState {
    /// Takes over a newer overview. Every pane shows its session as the overview has it. A
    /// reconnect never proves that an old exclusive lease survived, so it drops every lease; an
    /// ordinary refresh keeps them.
    pub fn replace_overview(&mut self, overview: OperatorOverview, reconnected: bool)
        ensures
            final(self)@ == old(self)@.replaced(overview@, reconnected),
    {
        self.resource_cursor = overview.cursor.clone();
        refresh_panes(&mut self.panes, &overview.sessions, reconnected);
        self.overview = overview;
        self.connection = ConnectionState::Live;
        self.status = "reconciled with authoritative snapshot".to_owned();
        self.stabilize_selection();
    }

    /// Drops every lease that has run out.
    pub fn expire_controls(&mut self, now_ms: i64)
        ensures
            final(self)@ == old(self)@.expired(now_ms),
    {
        expire_panes(&mut self.panes, now_ms);
    }

    /// Waits for the receipt of a submission whose outcome is unknown.
    pub fn track_pending_receipt(&mut self, key: String)
        ensures
            final(self)@ == old(self)@.awaiting(key@),
    {
        if pending_position(&self.pending_receipts, &key).is_some() {
            return;
        }
        if self.pending_receipts.len() == MAX_PENDING_RECEIPTS {
            self.pending_receipts.pop_front();
        }
        self.pending_receipts.push_back(key);
    }

    /// Stops waiting for a receipt.
    pub fn resolve_pending_receipt(&mut self, key: &String)
        ensures
            final(self)@ == old(self)@.resolved(key@),
    {
        self.pending_receipts = without_text(&self.pending_receipts, key);
    }

    /// Shows another view, with its first record selected.
    pub fn set_view(&mut self, view: View)
        ensures
            final(self)@ == old(self)@.viewing(view),
    {
        self.view = view;
        self.selected_index = 0;
        self.selected_key = None;
        self.stabilize_selection();
    }

    /// Moves the selection by `delta` records and keeps it on a record.
    pub fn move_selection(&mut self, delta: isize)
        ensures
            final(self)@ == old(self)@.moved_selection(delta as int),
    {
        let keys = shown_keys(self);
        if keys.len() == 0 {
            self.selected_index = 0;
            self.selected_key = None;
            return;
        }
        self.selected_index = move_place(self.selected_index, delta, keys.len() - 1);
        self.selected_key = Some(keys[self.selected_index].clone());
    }

    /// Turns the focused pane's pin over.
    pub fn toggle_focused_pin(&mut self)
        ensures
            final(self)@ == old(self)@.pin_toggled(),
    {
        if self.focused_pane >= self.panes.len() {
            self.status = "no focused session pane".to_owned();
            return;
        }
        let pinned = !self.panes[self.focused_pane].pinned;
        self.panes[self.focused_pane].pinned = pinned;
        self.status = if pinned {
            "focused pane pinned in saved workspace".to_owned()
        } else {
            "focused pane unpinned".to_owned()
        };
    }

    /// Opens a pane on an attached session and focuses it. A session that is attached already is
    /// focused only, and a session beyond the limit is left out.
    pub fn attach(&mut self, record: SessionRecord, attachment: Attachment) -> (opened: bool)
        ensures
            final(self)@ == old(self)@.attached(record, attachment),
            opened == old(self)@.opens_pane(record),
    {
        let key = coordinate_key(&record.session.resource);
        if let Some(index) = pane_position(&self.panes, &key) {
            self.focused_pane = index;
            return false;
        }
        if self.panes.len() >= MAX_PANES {
            self.status = "pane limit reached (12)".to_owned();
            return false;
        }
        let pane = SessionPane {
            record,
            attachment,
            control: None,
            timeline: VecDeque::new(),
            unread: 0,
            pinned: false,
        };
        self.panes.push(pane);
        self.focused_pane = self.panes.len() - 1;
        true
    }

    /// Closes the focused pane.
    pub fn remove_focused_pane(&mut self) -> (removed: Option<SessionPane>)
        ensures
            final(self)@ == old(self)@.focus_removed(),
            match removed {
                Some(pane) => old(self)@.panes.len() > 0 && pane@
                    == old(self)@.panes[old(self)@.removable()],
                None => old(self)@.panes.len() == 0,
            },
    {
        if self.panes.len() == 0 {
            return None;
        }
        let at = if self.focused_pane < self.panes.len() {
            self.focused_pane
        } else {
            self.panes.len() - 1
        };
        let pane = self.panes.remove(at);
        if self.focused_pane >= self.panes.len() {
            self.focused_pane = if self.panes.len() == 0 {
                0
            } else {
                self.panes.len() - 1
            };
        }
        Some(pane)
    }

    /// Moves the focus by `delta` panes.
    pub fn focus_next_pane(&mut self, delta: isize)
        ensures
            final(self)@ == old(self)@.focus_moved(delta as int),
    {
        if self.panes.len() == 0 {
            self.focused_pane = 0;
            return;
        }
        self.focused_pane = move_place(self.focused_pane, delta, self.panes.len() - 1);
        self.panes[self.focused_pane].unread = 0;
    }

    /// Moves the focused pane by `delta` places.
    pub fn reorder_focused_pane(&mut self, delta: isize)
        requires
            old(self)@.panes.len() < 2 || old(self)@.has_focus(),
        ensures
            final(self)@ == old(self)@.focus_reordered(delta as int),
    {
        if self.panes.len() < 2 {
            return;
        }
        let next = move_place(self.focused_pane, delta, self.panes.len() - 1);
        if next != self.focused_pane {
            swap_panes(&mut self.panes, self.focused_pane, next);
            self.focused_pane = next;
        }
    }

    /// Keeps a receipt.
    pub fn push_receipt(&mut self, receipt: ActionReceipt)
        ensures
            final(self)@ == old(self)@.receiving(receipt),
    {
        if self.receipts.len() == MAX_RECEIPTS {
            self.receipts.pop_front();
        }
        let mut status = receipt.action.as_str().to_owned();
        status.append(" ");
        status.append(receipt.outcome.as_str());
        status.append(" for ");
        status.append(receipt.target.id.as_str());
        self.status = status;
        self.receipts.push_back(receipt);
    }

    /// Applies a subscription's answer. Events that are reflected already are passed over. A gap
    /// between events, or a cursor that moved backwards, makes the state stale; no event behind
    /// a gap is applied.
    pub fn apply_subscription(&mut self, subscription: Subscription) -> (outcome: ApplyEvents)
        ensures
            final(self)@ == old(self)@.subscribed(subscription),
            outcome == old(self)@.subscription_outcome(subscription),
    {
        let mut reached = self.resource_cursor.sequence;
        let mut applied = false;
        let mut at: usize = 0;
        let ghost start = self@;
        let ghost whole = start.replayed(
            subscription.events@,
            start.resource_cursor.sequence,
            false,
        );
        proof {
            assert(subscription.events@.skip(0) =~= subscription.events@);
        }
        while at < subscription.events.len()
            invariant
                at <= subscription.events@.len(),
                whole == start.replayed(
                    subscription.events@,
                    start.resource_cursor.sequence,
                    false,
                ),
                whole == self@.replayed(subscription.events@.skip(at as int), reached, applied),
                start == old(self)@,
            decreases subscription.events@.len() - at,
        {
            let event = &subscription.events[at];
            let sequence = event.cursor.sequence;
            proof {
                let rest = subscription.events@.skip(at as int);
                assert(rest[0] == *event);
                assert(rest.skip(1) =~= subscription.events@.skip(at + 1));
            }
            if sequence > reached {
                if sequence - reached != 1 {
                    self.connection = ConnectionState::Stale;
                    self.status = "event gap detected; requesting fresh snapshot".to_owned();
                    return ApplyEvents::ResyncRequired;
                }
                self.apply_event(event);
                reached = sequence;
                applied = true;
            }
            at += 1;
        }
        if subscription.cursor.sequence < reached {
            self.connection = ConnectionState::Stale;
            self.status = "subscription cursor moved backwards".to_owned();
            return ApplyEvents::ResyncRequired;
        }
        self.resource_cursor = subscription.cursor;
        self.connection = ConnectionState::Live;
        self.stabilize_selection();
        if applied {
            ApplyEvents::Applied
        } else {
            ApplyEvents::DuplicateOnly
        }
    }

    fn apply_event(&mut self, event: &PlatformEvent)
        ensures
            final(self)@ == old(self)@.notified(event.resource),
    {
        match record_position(&self.overview.resources, &event.resource.resource) {
            Some(index) => {
                if event.resource.freshness.revision
                    >= self.overview.resources[index].freshness.revision {
                    self.overview.resources[index] = event.resource.clone();
                }
            },
            None => {
                self.overview.resources.push(event.resource.clone());
            },
        }
        notify_panes(&mut self.panes, &event.resource, self.focused_pane);
    }
}

fn refresh_panes(panes: &mut Vec<SessionPane>, sessions: &Vec<SessionRecord>, reconnected: bool)
    ensures
        pane_models(final(panes)@) == pane_models(old(panes)@).map_values(
            |pane: PaneModel| pane.refreshed(sessions@, reconnected),
        ),
{
    let ghost before = panes@;
    let mut at: usize = 0;
    while at < panes.len()
        invariant
            at <= panes@.len(),
            panes@.len() == before.len(),
            forall|i: int|
                0 <= i < at ==> (#[trigger] panes@[i])@ == before[i]@.refreshed(
                    sessions@,
                    reconnected,
                ),
            forall|i: int| at <= i < panes@.len() ==> (#[trigger] panes@[i]) == before[i],
        decreases panes@.len() - at,
    {
        if let Some(index) = session_position(sessions, &panes[at].record.session.resource) {
            panes[at].record = sessions[index].clone();
        }
        if reconnected {
            panes[at].control = None;
        }
        at += 1;
    }
    proof {
        assert(pane_models(panes@) =~= pane_models(before).map_values(
            |pane: PaneModel| pane.refreshed(sessions@, reconnected),
        ));
    }
}

fn expire_panes(panes: &mut Vec<SessionPane>, now_ms: i64)
    ensures
        pane_models(final(panes)@) == pane_models(old(panes)@).map_values(
            |pane: PaneModel| pane.expired(now_ms),
        ),
{
    let ghost before = panes@;
    let mut at: usize = 0;
    while at < panes.len()
        invariant
            at <= panes@.len(),
            panes@.len() == before.len(),
            forall|i: int|
                0 <= i < at ==> (#[trigger] panes@[i])@ == before[i]@.expired(now_ms),
            forall|i: int| at <= i < panes@.len() ==> (#[trigger] panes@[i]) == before[i],
        decreases panes@.len() - at,
    {
        let expired = match &panes[at].control {
            Some(lease) => lease.expires_at <= now_ms,
            None => false,
        };
        if expired {
            panes[at].control = None;
        }
        at += 1;
    }
    proof {
        assert(pane_models(panes@) =~= pane_models(before).map_values(
            |pane: PaneModel| pane.expired(now_ms),
        ));
    }
}

fn notify_panes(panes: &mut Vec<SessionPane>, record: &ResourceRecord, focused: usize)
    ensures
        pane_models(final(panes)@) == pane_models(old(panes)@).map(
            |index: int, pane: PaneModel| pane.notified(*record, index == focused),
        ),
{
    let ghost before = panes@;
    let mut at: usize = 0;
    while at < panes.len()
        invariant
            at <= panes@.len(),
            panes@.len() == before.len(),
            forall|i: int|
                0 <= i < at ==> (#[trigger] panes@[i])@ == before[i]@.notified(
                    *record,
                    i == focused,
                ),
            forall|i: int| at <= i < panes@.len() ==> (#[trigger] panes@[i]) == before[i],
        decreases panes@.len() - at,
    {
        let belongs = panes[at].record.session.resource.is_same(&record.resource)
            || match &panes[at].record.run {
            Some(run) => run.is_same(&record.resource),
            None => false,
        };
        if belongs {
            if panes[at].timeline.len() == MAX_TIMELINE_EVENTS {
                panes[at].timeline.pop_front();
            }
            panes[at].timeline.push_back(record.clone());
            if at != focused && panes[at].unread < usize::MAX {
                panes[at].unread = panes[at].unread + 1;
            }
        }
        at += 1;
    }
    proof {
        assert(pane_models(panes@) =~= pane_models(before).map(
            |index: int, pane: PaneModel| pane.notified(*record, index == focused),
        ));
    }
}

fn swap_panes(panes: &mut Vec<SessionPane>, left: usize, right: usize)
    requires
        left < old(panes)@.len(),
        right < old(panes)@.len(),
        left != right,
    ensures
        final(panes)@ == old(panes)@.update(left as int, old(panes)@[right as int]).update(
            right as int,
            old(panes)@[left as int],
        ),
{
    let (low, high) = if left < right {
        (left, right)
    } else {
        (right, left)
    };
    let upper = panes.remove(high);
    let lower = panes.remove(low);
    panes.insert(low, upper);
    panes.insert(high, lower);
}

fn pane_position(panes: &Vec<SessionPane>, key: &String) -> (position: Option<usize>)
    ensures
        match position {
            Some(index) => find_pane(pane_models(panes@), key@) == Some(index as int)
                && first_pane(pane_models(panes@), key@, index as int),
            None => find_pane(pane_models(panes@), key@) is None,
        },
{
    let ghost models = pane_models(panes@);
    let mut at: usize = 0;
    while at < panes.len()
        invariant
            at <= panes@.len(),
            models == pane_models(panes@),
            forall|i: int| 0 <= i < at ==> (#[trigger] models[i]).key() != key@,
        decreases panes@.len() - at,
    {
        if panes[at].key() == *key {
            proof {
                assert(models[at as int] == panes@[at as int]@);
                assert(first_pane(models, key@, at as int));
                let found = choose|index: int| first_pane(models, key@, index);
                if found < at {
                    assert(models[found].key() != key@);
                }
                if at < found {
                    assert(models[at as int].key() != key@);
                }
            }
            return Some(at);
        }
        proof {
            assert(models[at as int] == panes@[at as int]@);
        }
        at += 1;
    }
    None
}

fn pending_position(pending: &VecDeque<String>, key: &String) -> (position: Option<usize>)
    ensures
        match position {
            Some(index) => pending.deep_view().contains(key@),
            None => !pending.deep_view().contains(key@),
        },
{
    let mut at: usize = 0;
    while at < pending.len()
        invariant
            at <= pending@.len(),
            forall|i: int| 0 <= i < at ==> (#[trigger] pending@[i])@ != key@,
        decreases pending@.len() - at,
    {
        if pending[at] == *key {
            proof {
                assert(pending.deep_view()[at as int] == key@);
            }
            return Some(at);
        }
        at += 1;
    }
    None
}

fn without_text(texts: &VecDeque<String>, text: &String) -> (rest: VecDeque<String>)
    ensures
        rest.deep_view() == without(texts.deep_view(), text@),
{
    let ghost keep = |other: Seq<char>| other != text@;
    let mut rest: VecDeque<String> = VecDeque::new();
    let mut at: usize = 0;
    proof {
        assert(texts.deep_view().take(0).filter(keep) =~= Seq::<Seq<char>>::empty()) by {
            reveal(Seq::filter);
        }
        assert(rest.deep_view() =~= texts.deep_view().take(0).filter(keep));
    }
    while at < texts.len()
        invariant
            at <= texts@.len(),
            keep == (|other: Seq<char>| other != text@),
            rest.deep_view() == texts.deep_view().take(at as int).filter(keep),
        decreases texts@.len() - at,
    {
        let ghost earlier = rest.deep_view();
        let ghost next = texts.deep_view().take(at + 1);
        proof {
            assert(next.drop_last() =~= texts.deep_view().take(at as int));
            assert(next.last() == texts@[at as int]@);
            reveal(Seq::filter);
        }
        if texts[at] != *text {
            rest.push_back(texts[at].clone());
            proof {
                assert(rest.deep_view() =~= earlier.push(texts@[at as int]@));
            }
        }
        at += 1;
    }
    proof {
        assert(texts.deep_view().take(at as int) =~= texts.deep_view());
    }
    rest
}

} // verus!
