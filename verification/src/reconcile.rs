//! Reconciling with the authority: refreshing, attaching again after a reconnect, and leaving.

use vstd::prelude::*;
use vstd::view::View as _;

use crate::backend::{
    attach, attach_result, detach, detach_result, receipt, receipt_result, release_control,
    release_control_result, BackendError, OperatorOverview, OverviewModel, Reply,
};
use crate::commands::viewed;
use crate::interaction::{release_request, releasing};
use crate::protocol::{ActionReceipt, ControlLease, PlatformRequest, ResourceCoordinate, SessionRecord};
use crate::state::{without, CockpitModel, CockpitState, ConnectionState, PaneModel};
use crate::text::same_text;

verus! {

/// An overview that is taken over once every awaited receipt is known.
#[derive(Clone, Debug, PartialEq, Eq)]
pub struct Reconciliation {
    pub reconnected: bool,
    pub overview: OperatorOverview,
    /// The receipts that were awaited when the overview arrived.
    pub keys: Vec<String>,
    /// How many of them are known.
    pub known: usize,
}

/// A reconciliation, over sequences.
#[verifier::ext_equal]
pub struct ReconciliationModel {
    pub reconnected: bool,
    pub overview: OverviewModel,
    pub keys: Seq<Seq<char>>,
    pub known: nat,
}

impl vstd::view::View for Reconciliation {
    type V = ReconciliationModel;

    open spec fn view(&self) -> ReconciliationModel {
        ReconciliationModel {
            reconnected: self.reconnected,
            overview: self.overview@,
            keys: self.keys.deep_view(),
            known: self.known as nat,
        }
    }
}

/// What a refresh comes to next.
#[derive(Clone, Debug, PartialEq, Eq)]
pub enum RefreshStep {
    Send { request: PlatformRequest, then: Reconciliation },
    Refreshed,
    UpgradeRequired,
    Failed(BackendError),
}

impl OverviewModel {
    /// Whether the authority speaks the protocol that this client speaks.
    pub open spec fn compatible(self) -> bool {
        self.protocol == "automonique.platform"@ && self.schema == "automonique.platform/v1"@
    }
}

/// Whether a refresh goes on with the next awaited receipt, or takes the overview over where all
/// are known.
pub open spec fn refresh_goes_on(
    before: CockpitModel,
    plan: ReconciliationModel,
    after: CockpitModel,
    step: RefreshStep,
) -> bool {
    if plan.known < plan.keys.len() {
        &&& after == before
        &&& step matches RefreshStep::Send {
            request: PlatformRequest::GetReceipt { idempotency_key },
            then,
        }
        &&& idempotency_key@ == plan.keys[plan.known as int]
        &&& then@ == plan
    } else {
        &&& after == before.replaced(plan.overview, plan.reconnected)
        &&& step == RefreshStep::Refreshed
    }
}

/// Whether a refresh begins as described: an authority that speaks another protocol ends it, and
/// otherwise every receipt that is awaited comes first.
pub open spec fn refresh_begins(
    before: CockpitModel,
    overview: OverviewModel,
    after: CockpitModel,
    step: RefreshStep,
) -> bool {
    if overview.compatible() {
        refresh_goes_on(
            before,
            ReconciliationModel {
                reconnected: before.connection != ConnectionState::Live,
                overview,
                keys: before.pending_receipts,
                known: 0,
            },
            after,
            step,
        )
    } else {
        &&& step == RefreshStep::UpgradeRequired
        &&& after == CockpitModel {
            connection: ConnectionState::UpgradeRequired,
            ..before
        }.saying("server protocol is incompatible; mutation controls disabled"@)
    }
}

/// Whether the answer to an awaited receipt is taken over as described: a receipt settles its key
/// and the refresh goes on, and one that stays unknown ends it.
pub open spec fn receipt_taken(
    before: CockpitModel,
    then: ReconciliationModel,
    reply: Reply,
    after: CockpitModel,
    step: RefreshStep,
) -> bool {
    match receipt_result(reply) {
        Ok(receipt) => refresh_goes_on(
            before.resolved(then.keys[then.known as int]).receiving(receipt),
            ReconciliationModel { known: then.known + 1, ..then },
            after,
            step,
        ),
        Err(error) => {
            &&& step == RefreshStep::Failed(error)
            &&& after == CockpitModel { connection: ConnectionState::Stale, ..before }.saying(
                "unknown receipt; controls remain disabled"@,
            )
        },
    }
}

fn go_on(plan: Reconciliation, state: &mut CockpitState) -> (step: RefreshStep)
    ensures
        refresh_goes_on(old(state)@, plan@, final(state)@, step),
{
    if plan.known < plan.keys.len() {
        let request = PlatformRequest::GetReceipt {
            idempotency_key: plan.keys[plan.known].clone(),
        };
        RefreshStep::Send { request, then: plan }
    } else {
        state.replace_overview(plan.overview, plan.reconnected);
        RefreshStep::Refreshed
    }
}

fn awaited_keys(state: &CockpitState) -> (keys: Vec<String>)
    ensures
        keys.deep_view() == state@.pending_receipts,
{
    let mut keys: Vec<String> = Vec::new();
    let mut at: usize = 0;
    while at < state.pending_receipts.len()
        invariant
            at <= state.pending_receipts@.len(),
            keys@ == state.pending_receipts@.take(at as int),
        decreases state.pending_receipts@.len() - at,
    {
        keys.push(state.pending_receipts[at].clone());
        at += 1;
    }
    proof {
        assert(keys@ =~= state.pending_receipts@);
        assert(keys.deep_view() =~= state@.pending_receipts);
    }
    keys
}

/// Goes on with a refresh once its overview is gathered.
///
/// An authority that speaks another protocol disables mutations. Otherwise every receipt that is
/// awaited is asked for before the overview is taken over. Where no overview could be gathered,
/// the refresh has failed and the state stays as it is.
pub fn refresh_gathered(overview: OperatorOverview, state: &mut CockpitState) -> (step: RefreshStep)
    ensures
        refresh_begins(old(state)@, overview@, final(state)@, step),
{
    let reconnected = !matches!(state.connection, ConnectionState::Live);
    if !same_text(overview.capabilities.protocol.as_str(), "automonique.platform") || !same_text(
        overview.capabilities.schema.as_str(),
        "automonique.platform/v1",
    ) {
        state.connection = ConnectionState::UpgradeRequired;
        state.status = "server protocol is incompatible; mutation controls disabled".to_owned();
        return RefreshStep::UpgradeRequired;
    }
    let keys = awaited_keys(state);
    go_on(Reconciliation { reconnected, overview, keys, known: 0 }, state)
}

/// Goes on with a refresh once an awaited receipt was asked for. A receipt that stays unknown
/// ends the refresh, and controls stay disabled.
pub fn refresh_receipt(then: Reconciliation, reply: Reply, state: &mut CockpitState) -> (step:
    RefreshStep)
    requires
        then.known < then.keys@.len(),
    ensures
        receipt_taken(old(state)@, then@, reply, final(state)@, step),
{
    let mut plan = then;
    assert(plan.known < plan.keys.len());
    match receipt(reply) {
        Ok(receipt) => {
            state.resolve_pending_receipt(&plan.keys[plan.known]);
            state.push_receipt(receipt);
            plan.known = plan.known + 1;
            go_on(plan, state)
        },
        Err(error) => {
            state.connection = ConnectionState::Stale;
            state.status = "unknown receipt; controls remain disabled".to_owned();
            RefreshStep::Failed(error)
        },
    }
}

impl CockpitModel {
    /// The state once the given receipts arrived for the given keys, one after the other.
    pub open spec fn reconciled(self, keys: Seq<Seq<char>>, receipts: Seq<ActionReceipt>) -> CockpitModel
        decreases keys.len(),
    {
        if keys.len() == 0 {
            self
        } else {
            self.resolved(keys[0]).receiving(receipts[0]).reconciled(
                keys.skip(1),
                receipts.skip(1),
            )
        }
    }

    /// The state that the client has left.
    pub open spec fn left(self) -> CockpitModel {
        CockpitModel { panes: Seq::empty(), ..self }
    }

    /// The request that attaches a pane again.
    pub open spec fn reattaching(self, index: nat, client: String) -> Option<PlatformRequest> {
        if index < self.panes.len() {
            Some(
                PlatformRequest::Attach {
                    session: self.panes[index as int].record.session.resource,
                    client,
                },
            )
        } else {
            None
        }
    }

    /// The state with one pane attached again, or marked as no longer attachable.
    pub open spec fn reattached(self, index: int, reply: Reply) -> CockpitModel {
        let pane = self.panes[index];
        CockpitModel {
            panes: self.panes.update(
                index,
                match attach_result(reply) {
                    Ok(attachment) => PaneModel { attachment, ..pane },
                    Err(_) => PaneModel {
                        record: SessionRecord { attachable: false, ..pane.record },
                        ..pane
                    },
                },
            ),
            ..self
        }
    }
}

/// The request that attaches a pane again after a reconnect.
pub fn reattach_request(state: &CockpitState, index: usize, client: &String) -> (request: Option<
    PlatformRequest,
>)
    ensures
        request == state@.reattaching(index as nat, *client),
{
    if index < state.panes.len() {
        Some(
            PlatformRequest::Attach {
                session: state.panes[index].record.session.resource.clone(),
                client: client.clone(),
            },
        )
    } else {
        None
    }
}

/// Takes over the answer to attaching a pane again.
pub fn reattach_answered(state: &mut CockpitState, index: usize, reply: Reply)
    requires
        index < old(state)@.panes.len(),
    ensures
        final(state)@ == old(state)@.reattached(index as int, reply),
{
    match attach(reply) {
        Ok(attachment) => {
            state.panes[index].attachment = attachment;
        },
        Err(_) => {
            state.panes[index].record.attachable = false;
        },
    }
}

/// What is left to do for a pane when the client leaves.
#[derive(Clone, Debug, PartialEq, Eq)]
pub struct Departure {
    pub lease: Option<ControlLease>,
    pub session: ResourceCoordinate,
}

/// What is left to do for each pane when the client leaves, in order.
pub open spec fn departing(panes: Seq<PaneModel>) -> Seq<Departure> {
    panes.map_values(
        |pane: PaneModel| Departure {
            lease: pane.control,
            session: pane.record.session.resource,
        },
    )
}

/// Takes every pane away and says what is left to do for each: a held lease is released, then
/// the observer is detached.
pub fn cleanup_client(state: &mut CockpitState) -> (departures: Vec<Departure>)
    ensures
        departures@ == departing(old(state)@.panes),
        final(state)@ == old(state)@.left(),
{
    let mut departures: Vec<Departure> = Vec::new();
    let mut at: usize = 0;
    while at < state.panes.len()
        invariant
            at <= state.panes@.len(),
            departures@ == departing(state@.panes).take(at as int),
        decreases state.panes@.len() - at,
    {
        let pane = &state.panes[at];
        departures.push(
            Departure {
                lease: pane.control.clone(),
                session: pane.record.session.resource.clone(),
            },
        );
        proof {
            assert(departures@ =~= departing(state@.panes).take(at + 1));
        }
        at += 1;
    }
    proof {
        assert(departing(state@.panes).take(at as int) =~= departing(state@.panes));
    }
    state.panes = Vec::new();
    proof {
        assert(state@ =~= old(state)@.left());
    }
    departures
}

/// The requests that a departure stands for: a held lease is released where the release could be
/// given a key, and the observer is detached. Neither depends on what comes of the other.
pub open spec fn requests_of(departure: Departure, key: Option<String>, client: String) -> Seq<
    PlatformRequest,
> {
    let detach = PlatformRequest::Detach { session: departure.session, client };
    match (departure.lease, key) {
        (Some(lease), Some(key)) => seq![releasing(lease, key), detach],
        _ => seq![detach],
    }
}

/// The requests that a departure stands for, in the order in which they are sent.
pub fn departure_requests(departure: &Departure, key: Option<String>, client: &String) -> (requests:
    Vec<PlatformRequest>)
    ensures
        requests@ == requests_of(*departure, key, *client),
{
    let mut requests: Vec<PlatformRequest> = Vec::new();
    if let (Some(lease), Some(key)) = (&departure.lease, key) {
        requests.push(release_request(lease, key));
    }
    requests.push(
        PlatformRequest::Detach { session: departure.session.clone(), client: client.clone() },
    );
    proof {
        assert(requests@ =~= requests_of(*departure, key, *client));
    }
    requests
}

/// What is said of the answer to one of the requests that a departure stands for, if anything.
pub open spec fn complaint_of(
    departure: Departure,
    request: PlatformRequest,
    reply: Reply,
    client: String,
) -> Option<Seq<char>> {
    match (request, departure.lease) {
        (PlatformRequest::ReleaseControl { .. }, Some(lease)) => match release_control_result(
            reply,
            lease,
        ) {
            Ok(()) => None,
            Err(error) => Some(
                "jcode platform: control release during exit failed: "@ + error.words(),
            ),
        },
        (PlatformRequest::Detach { .. }, _) => match detach_result(
            reply,
            departure.session,
            client@,
        ) {
            Ok(()) => None,
            Err(error) => Some(
                "jcode platform: observer detach during exit failed: "@ + error.words(),
            ),
        },
        _ => None,
    }
}

/// What is said of the answer to one of the requests that a departure stands for, if anything.
pub fn departure_complaint(
    departure: &Departure,
    request: &PlatformRequest,
    reply: Reply,
    client: &String,
) -> (words: Option<String>)
    ensures
        viewed(words) == complaint_of(*departure, *request, reply, *client),
{
    match (request, &departure.lease) {
        (PlatformRequest::ReleaseControl { .. }, Some(lease)) => match release_control(
            reply,
            lease,
        ) {
            Ok(()) => None,
            Err(error) => Some(release_complaint(&error)),
        },
        (PlatformRequest::Detach { .. }, _) => match detach(reply, &departure.session, client) {
            Ok(()) => None,
            Err(error) => Some(detach_complaint(&error)),
        },
        _ => None,
    }
}

fn complaint(prefix: &str, error: &BackendError) -> (words: String)
    ensures
        words@ == prefix@ + error.words(),
{
    let mut words = prefix.to_owned();
    words.append(error.message().as_str());
    words
}

/// What is said where a lease could not be released on leaving.
pub fn release_complaint(error: &BackendError) -> (words: String)
    ensures
        words@ == "jcode platform: control release during exit failed: "@ + error.words(),
{
    complaint("jcode platform: control release during exit failed: ", error)
}

/// What is said where an observer could not be detached on leaving.
pub fn detach_complaint(error: &BackendError) -> (words: String)
    ensures
        words@ == "jcode platform: observer detach during exit failed: "@ + error.words(),
{
    complaint("jcode platform: observer detach during exit failed: ", error)
}

/// Attaching again after a reconnect grants no control, changes no other pane and keeps a sound
/// state sound.
pub proof fn reattaching_grants_nothing(state: CockpitModel, index: int, reply: Reply)
    requires
        0 <= index < state.panes.len(),
    ensures
        state.reattached(index, reply).panes.len() == state.panes.len(),
        forall|i: int|
            0 <= i < state.panes.len() ==> (#[trigger] state.reattached(index, reply).panes[i]).control
                == state.panes[i].control,
        forall|i: int|
            0 <= i < state.panes.len() && i != index ==> (#[trigger] state.reattached(
                index,
                reply,
            ).panes[i]) == state.panes[i],
        state.sound() ==> state.reattached(index, reply).sound(),
{
    let after = state.reattached(index, reply);
    if state.sound() {
        assert forall|i: int, j: int| 0 <= i < j < after.panes.len() implies (
        #[trigger] after.panes[i]).key() != (#[trigger] after.panes[j]).key() by {
            assert(state.panes[i].key() != state.panes[j].key());
        }
    }
}

/// Every request that a client sends when it leaves, given the key for each pane.
pub open spec fn requests_on_leaving(
    panes: Seq<PaneModel>,
    keys: Seq<Option<String>>,
    client: String,
) -> Seq<PlatformRequest>
    decreases panes.len(),
{
    if panes.len() == 0 {
        Seq::empty()
    } else {
        requests_on_leaving(panes.drop_last(), keys, client) + requests_of(
            departing(panes).last(),
            keys[panes.len() - 1],
            client,
        )
    }
}

/// Leaving takes the panes in order. Of each it releases the lease that is held and then detaches
/// the observer, whatever the authority answers, and it sends nothing else.
pub proof fn leaving_covers_every_pane(
    panes: Seq<PaneModel>,
    keys: Seq<Option<String>>,
    client: String,
    pane: int,
)
    requires
        0 <= pane < panes.len(),
        keys[pane] is Some,
    ensures
        departing(panes).len() == panes.len(),
        requests_of(departing(panes)[pane], keys[pane], client) == match panes[pane].control {
            Some(lease) => seq![
                releasing(lease, keys[pane]->0),
                PlatformRequest::Detach { session: panes[pane].record.session.resource, client },
            ],
            None => seq![
                PlatformRequest::Detach { session: panes[pane].record.session.resource, client },
            ],
        },
        requests_on_leaving(panes.take(pane + 1), keys, client) == requests_on_leaving(
            panes.take(pane),
            keys,
            client,
        ) + requests_of(departing(panes)[pane], keys[pane], client),
        requests_on_leaving(panes.take(0), keys, client).len() == 0,
{
    assert(panes.take(pane + 1).drop_last() =~= panes.take(pane));
    assert(departing(panes.take(pane + 1)).last() == departing(panes)[pane]);
}

/// A refresh that succeeds leaves no receipt awaited and the connection live: controls come back
/// only once every ambiguous submission is reconciled.
pub proof fn refreshing_reconciles_every_receipt(
    state: CockpitModel,
    receipts: Seq<ActionReceipt>,
    overview: OverviewModel,
    reconnected: bool,
)
    ensures
        ({
            let after = state.reconciled(state.pending_receipts, receipts).replaced(
                overview,
                reconnected,
            );
            &&& after.pending_receipts.len() == 0
            &&& after.connection == ConnectionState::Live
        }),
{
    resolving_all_leaves_none(state, state.pending_receipts, receipts);
}

/// Whether a refresh went through these states and steps: every step but the last asked for a
/// receipt, and the answer led to the next one.
pub open spec fn refresh_ran(
    states: Seq<CockpitModel>,
    steps: Seq<RefreshStep>,
    replies: Seq<Reply>,
) -> bool {
    &&& states.len() == steps.len()
    &&& steps.len() == replies.len() + 1
    &&& forall|i: int|
        0 <= i < replies.len() ==> {
            &&& steps[i] matches RefreshStep::Send { then, .. }
            &&& receipt_taken(states[i], then@, #[trigger] replies[i], states[i + 1], steps[i + 1])
        }
}

/// The receipts in a run of answers.
pub open spec fn receipts_in(replies: Seq<Reply>) -> Seq<ActionReceipt> {
    Seq::new(replies.len(), |i: int| receipt_result(replies[i])->Ok_0)
}

/// A refresh that ran to its end has asked for every awaited receipt, one after the other, was
/// given each, and has taken the overview over on top of them.
pub proof fn refresh_ends_reconciled(
    before: CockpitModel,
    overview: OverviewModel,
    states: Seq<CockpitModel>,
    steps: Seq<RefreshStep>,
    replies: Seq<Reply>,
)
    requires
        refresh_ran(states, steps, replies),
        refresh_begins(before, overview, states[0], steps[0]),
        steps.last() == RefreshStep::Refreshed,
    ensures
        replies.len() == before.pending_receipts.len(),
        forall|i: int|
            0 <= i < replies.len() ==> receipt_result(#[trigger] replies[i]) is Ok,
        states.last() == before.reconciled(before.pending_receipts, receipts_in(replies)).replaced(
            overview,
            before.connection != ConnectionState::Live,
        ),
{
    let plan = ReconciliationModel {
        reconnected: before.connection != ConnectionState::Live,
        overview,
        keys: before.pending_receipts,
        known: 0,
    };
    if !overview.compatible() {
        if replies.len() > 0 {
            assert(receipt_taken(
                states[0],
                steps[0]->then@,
                replies[0],
                states[1],
                steps[1],
            ));
        }
    } else {
        refresh_ends_from(before, plan, states, steps, replies);
        assert(before.pending_receipts.skip(0) =~= before.pending_receipts);
        assert(receipts_in(replies).skip(0) =~= receipts_in(replies));
    }
}

proof fn refresh_ends_from(
    before: CockpitModel,
    plan: ReconciliationModel,
    states: Seq<CockpitModel>,
    steps: Seq<RefreshStep>,
    replies: Seq<Reply>,
)
    requires
        refresh_ran(states, steps, replies),
        plan.known <= plan.keys.len(),
        plan.known <= replies.len(),
        refresh_goes_on(
            before,
            plan,
            states[plan.known as int],
            steps[plan.known as int],
        ),
        steps.last() == RefreshStep::Refreshed,
    ensures
        replies.len() == plan.keys.len(),
        forall|i: int|
            plan.known <= i < replies.len() ==> receipt_result(#[trigger] replies[i]) is Ok,
        states.last() == before.reconciled(
            plan.keys.skip(plan.known as int),
            receipts_in(replies).skip(plan.known as int),
        ).replaced(plan.overview, plan.reconnected),
    decreases plan.keys.len() - plan.known,
{
    let at = plan.known as int;
    if at < replies.len() {
        assert(receipt_taken(
            states[at],
            steps[at]->then@,
            replies[at],
            states[at + 1],
            steps[at + 1],
        ));
        if at + 1 < replies.len() {
            assert(receipt_taken(
                states[at + 1],
                steps[at + 1]->then@,
                replies[at + 1],
                states[at + 2],
                steps[at + 2],
            ));
        }
    }
    if at < plan.keys.len() {
        let keys = plan.keys.skip(at);
        let receipts = receipts_in(replies).skip(at);
        let receipt = receipt_result(replies[at])->Ok_0;
        refresh_ends_from(
            before.resolved(plan.keys[at]).receiving(receipt),
            ReconciliationModel { known: plan.known + 1, ..plan },
            states,
            steps,
            replies,
        );
        assert(keys[0] == plan.keys[at] && receipts[0] == receipt);
        assert(keys.skip(1) =~= plan.keys.skip(at + 1));
        assert(receipts.skip(1) =~= receipts_in(replies).skip(at + 1));
    }
}

proof fn resolving_all_leaves_none(
    state: CockpitModel,
    keys: Seq<Seq<char>>,
    receipts: Seq<ActionReceipt>,
)
    requires
        forall|i: int|
            0 <= i < state.pending_receipts.len() ==> keys.contains(
                #[trigger] state.pending_receipts[i],
            ),
    ensures
        state.reconciled(keys, receipts).pending_receipts.len() == 0,
    decreases keys.len(),
{
    if keys.len() == 0 {
        if state.pending_receipts.len() > 0 {
            assert(keys.contains(state.pending_receipts[0]));
        }
    } else {
        let next = state.resolved(keys[0]).receiving(receipts[0]);
        let rest = keys.skip(1);
        without_keeps_others(state.pending_receipts, keys[0]);
        assert forall|i: int| 0 <= i < next.pending_receipts.len() implies rest.contains(
            #[trigger] next.pending_receipts[i],
        ) by {
            let key = next.pending_receipts[i];
            assert(without(state.pending_receipts, keys[0]).contains(key));
            assert(state.pending_receipts.contains(key));
            let place = choose|place: int|
                0 <= place < state.pending_receipts.len() && state.pending_receipts[place] == key;
            assert(keys.contains(state.pending_receipts[place]));
            let at = choose|at: int| 0 <= at < keys.len() && keys[at] == key;
            assert(rest[at - 1] == key);
        }
        resolving_all_leaves_none(next, rest, receipts.skip(1));
    }
}

proof fn without_keeps_others(texts: Seq<Seq<char>>, text: Seq<char>)
    ensures
        forall|other: Seq<char>| #[trigger]
            without(texts, text).contains(other) ==> other != text && texts.contains(other),
    decreases texts.len(),
{
    reveal(Seq::filter);
    if texts.len() > 0 {
        let before = texts.drop_last();
        without_keeps_others(before, text);
        assert forall|other: Seq<char>| #[trigger] without(texts, text).contains(other) implies other
            != text && texts.contains(other) by {
            let rest = without(texts, text);
            let i = choose|i: int| 0 <= i < rest.len() && rest[i] == other;
            let earlier = without(before, text);
            if i < earlier.len() {
                assert(earlier.contains(earlier[i]));
                let j = choose|j: int| 0 <= j < before.len() && before[j] == other;
                assert(texts[j] == other);
            } else {
                assert(texts[texts.len() - 1] == other);
            }
        }
    }
}

/// After a reconnect each pane asks for its own session again, in this client's name.
pub proof fn panes_ask_for_their_sessions_again(state: CockpitModel, pane: nat, client: String)
    ensures
        pane < state.panes.len() ==> state.reattaching(pane, client) == Some(
            PlatformRequest::Attach {
                session: state.panes[pane as int].record.session.resource,
                client,
            },
        ),
        pane >= state.panes.len() ==> state.reattaching(pane, client) is None,
{
}

/// A pane that is attached again has the new attachment and stays attachable as it was; one that
/// is refused stays, but can no longer be attached. What it has kept stays either way.
pub proof fn reattached_pane_keeps_what_it_had(state: CockpitModel, pane: int, reply: Reply)
    requires
        0 <= pane < state.panes.len(),
    ensures
        ({
            let before = state.panes[pane];
            let after = state.reattached(pane, reply).panes[pane];
            &&& attach_result(reply) matches Ok(attachment) ==> after.attachment == attachment
                && after.record == before.record
            &&& attach_result(reply) is Err ==> !after.record.attachable && after.attachment
                == before.attachment && after.record.session == before.record.session
                && after.record.run == before.record.run && after.record.controllable
                == before.record.controllable
            &&& after.timeline == before.timeline
            &&& after.unread == before.unread
            &&& after.pinned == before.pinned
            &&& after.control == before.control
        }),
        state.reattached(pane, reply).connection == state.connection,
        state.reattached(pane, reply).focused_pane == state.focused_pane,
{
}

/// A client that leaves has no pane left.
pub proof fn leaving_empties_the_panes(state: CockpitModel, pane: int)
    requires
        0 <= pane < state.panes.len(),
    ensures
        state.left().panes.len() == 0,
        departing(state.panes).len() == state.panes.len(),
        departing(state.panes)[pane].lease == state.panes[pane].control,
        departing(state.panes)[pane].session == state.panes[pane].record.session.resource,
{
}

/// A refresh takes no overview over from an authority that speaks another protocol or another
/// version of it: the state is then read-only until an upgrade.
pub proof fn other_protocols_are_not_taken_over(
    before: CockpitModel,
    overview: OverviewModel,
    after: CockpitModel,
    step: RefreshStep,
)
    requires
        refresh_begins(before, overview, after, step),
    ensures
        overview.protocol != "automonique.platform"@ || overview.schema
            != "automonique.platform/v1"@ ==> {
            &&& step == RefreshStep::UpgradeRequired
            &&& after.connection == ConnectionState::UpgradeRequired
            &&& after.overview == before.overview
            &&& after.panes == before.panes
        },
        overview.protocol == "automonique.platform"@ && overview.schema
            == "automonique.platform/v1"@ ==> step != RefreshStep::UpgradeRequired,
{
}

/// Without an awaited receipt a refresh takes the overview over at once: a state that was live
/// keeps its leases, and one that was not has none afterwards.
pub proof fn refresh_without_awaited_receipts(
    before: CockpitModel,
    overview: OverviewModel,
    after: CockpitModel,
    step: RefreshStep,
    pane: int,
)
    requires
        refresh_begins(before, overview, after, step),
        overview.protocol == "automonique.platform"@,
        overview.schema == "automonique.platform/v1"@,
        before.pending_receipts.len() == 0,
        0 <= pane < before.panes.len(),
    ensures
        step == RefreshStep::Refreshed,
        after.overview == overview,
        after.connection == ConnectionState::Live,
        after.panes.len() == before.panes.len(),
        before.connection == ConnectionState::Live ==> after.panes[pane].control
            == before.panes[pane].control,
        before.connection != ConnectionState::Live ==> after.panes[pane].control is None,
{
}

/// With awaited receipts a refresh asks for the one that is awaited longest, and takes nothing
/// over yet.
pub proof fn refresh_asks_for_awaited_receipts_first(
    before: CockpitModel,
    overview: OverviewModel,
    after: CockpitModel,
    step: RefreshStep,
)
    requires
        refresh_begins(before, overview, after, step),
        overview.protocol == "automonique.platform"@,
        overview.schema == "automonique.platform/v1"@,
        before.pending_receipts.len() > 0,
    ensures
        after == before,
        step matches RefreshStep::Send {
            request: PlatformRequest::GetReceipt { idempotency_key },
            ..
        } && idempotency_key@ == before.pending_receipts[0],
{
}

/// A receipt that stays unknown ends the refresh: the state is read-only, still awaits the
/// receipt, and shows what it showed.
pub proof fn unknown_receipt_ends_the_refresh(
    before: CockpitModel,
    then: ReconciliationModel,
    reply: Reply,
    after: CockpitModel,
    step: RefreshStep,
)
    requires
        receipt_taken(before, then, reply, after, step),
        receipt_result(reply) is Err,
    ensures
        step is Failed,
        after.connection == ConnectionState::Stale,
        after.pending_receipts == before.pending_receipts,
        after.overview == before.overview,
        after.panes == before.panes,
        after.receipts == before.receipts,
{
}

/// A receipt that arrives is kept and no longer awaited.
pub proof fn arrived_receipt_is_kept(
    before: CockpitModel,
    then: ReconciliationModel,
    reply: Reply,
    after: CockpitModel,
    step: RefreshStep,
)
    requires
        then.known < then.keys.len(),
        receipt_taken(before, then, reply, after, step),
        receipt_result(reply) is Ok,
    ensures
        after.receipts.len() > 0,
        after.receipts.last() == receipt_result(reply)->Ok_0,
        !after.pending_receipts.contains(then.keys[then.known as int]),
        then.known + 1 < then.keys.len() ==> step is Send,
        then.known + 1 == then.keys.len() ==> step == RefreshStep::Refreshed && after.overview
            == then.overview && after.connection == ConnectionState::Live,
{
    without_keeps_others(before.pending_receipts, then.keys[then.known as int]);
}

/// What is said on leaving tells what failed, and why.
pub proof fn failures_on_leaving_are_told(
    departure: Departure,
    key: String,
    lease: ControlLease,
    reply: Reply,
    client: String,
)
    requires
        departure.lease == Some(lease),
    ensures
        ({
            let release = releasing(lease, key);
            let detach = PlatformRequest::Detach { session: departure.session, client };
            &&& complaint_of(departure, release, reply, client) is None <==> release_control_result(
                reply,
                lease,
            ) is Ok
            &&& complaint_of(departure, detach, reply, client) is None <==> detach_result(
                reply,
                departure.session,
                client@,
            ) is Ok
        }),
{
}

} // verus!
