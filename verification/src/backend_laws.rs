//! What the authority's answers mean, said of the answers themselves.

use vstd::prelude::*;
use vstd::view::View as _;

use crate::backend::{
    attach_result, capabilities_result, claim_control_result, detach_result, overview_goes_on,
    overview_snapshot_result, receipt_result, registered_action, registers_action,
    registry_actions, release_control_result, subscribe_result, BackendError, ClientError,
    OverviewModel, OverviewProgress, OverviewStep, Reply,
};
use crate::protocol::{
    method_names, ActionReceipt, Attachment, Capabilities, ControlLease, PlatformAction,
    PlatformRequest, PlatformResponse, ReceiptOutcome, ResourceAuthority, ResourceCoordinate,
    ResourceRecord, SessionList, SessionRecord, Snapshot, Subscription,
};
use crate::selection_laws::publishes_an_action;

verus! {

/// The answer that was asked for is handed on as it came.
pub proof fn expected_answers_are_handed_on(
    capabilities: Capabilities,
    snapshot: Snapshot,
    attachment: Attachment,
    lease: ControlLease,
    subscription: Subscription,
    receipt: ActionReceipt,
)
    ensures
        capabilities_result(Ok(PlatformResponse::Capabilities(capabilities))) == Ok::<
            Capabilities,
            BackendError,
        >(capabilities),
        overview_snapshot_result(Ok(PlatformResponse::Snapshot(snapshot))) == Ok::<
            Snapshot,
            BackendError,
        >(snapshot),
        attach_result(Ok(PlatformResponse::Attached(attachment))) == Ok::<
            Attachment,
            BackendError,
        >(attachment),
        claim_control_result(Ok(PlatformResponse::ControlClaimed(lease))) == Ok::<
            ControlLease,
            BackendError,
        >(lease),
        subscribe_result(Ok(PlatformResponse::Subscription(subscription))) == Ok::<
            Subscription,
            BackendError,
        >(subscription),
        receipt_result(Ok(PlatformResponse::Receipt(receipt))) == Ok::<
            ActionReceipt,
            BackendError,
        >(receipt),
{
}

/// Where no answer came, the error is handed on; a refusal is told with its outcome and its
/// explanation.
pub proof fn errors_and_refusals_are_told(
    error: BackendError,
    outcome: ReceiptOutcome,
    explanation: String,
    session: ResourceCoordinate,
    client: Seq<char>,
    lease: ControlLease,
)
    ensures
        ({
            let missing = Err::<PlatformResponse, BackendError>(error);
            let refused = Ok::<PlatformResponse, BackendError>(
                PlatformResponse::Refused { outcome, explanation },
            );
            let told = BackendError::Refused { outcome, explanation };
            &&& capabilities_result(missing) matches Err(it) && it == error
            &&& overview_snapshot_result(missing) matches Err(it) && it == error
            &&& attach_result(missing) matches Err(it) && it == error
            &&& claim_control_result(missing) matches Err(it) && it == error
            &&& subscribe_result(missing) matches Err(it) && it == error
            &&& receipt_result(missing) matches Err(it) && it == error
            &&& detach_result(missing, session, client) matches Err(it) && it == error
            &&& release_control_result(missing, lease) matches Err(it) && it == error
            &&& capabilities_result(refused) matches Err(it) && it == BackendError::Protocol
            &&& overview_snapshot_result(refused) matches Err(it) && it == told
            &&& attach_result(refused) matches Err(it) && it == told
            &&& claim_control_result(refused) matches Err(it) && it == told
            &&& subscribe_result(refused) matches Err(it) && it == told
            &&& receipt_result(refused) matches Err(it) && it == told
            &&& detach_result(refused, session, client) matches Err(it) && it == told
            &&& release_control_result(refused, lease) matches Err(it) && it == told
        }),
{
}

/// An answer of another kind breaks the protocol.
pub proof fn other_answers_break_the_protocol(
    response: PlatformResponse,
    session: ResourceCoordinate,
    client: Seq<char>,
    lease: ControlLease,
)
    requires
        !(response is Refused),
    ensures
        ({
            let reply = Ok::<PlatformResponse, BackendError>(response);
            let broken = BackendError::Protocol;
            &&& !(response is Capabilities) ==> (capabilities_result(reply) matches Err(it) && it
                == broken)
            &&& !(response is Snapshot) ==> (overview_snapshot_result(reply) matches Err(it) && it
                == broken)
            &&& !(response is Attached) ==> (attach_result(reply) matches Err(it) && it == broken)
            &&& !(response is ControlClaimed) ==> (claim_control_result(reply) matches Err(it)
                && it == broken)
            &&& !(response is Subscription) ==> (subscribe_result(reply) matches Err(it) && it
                == broken)
            &&& !(response is Receipt) ==> (receipt_result(reply) matches Err(it) && it == broken)
            &&& !(response is Detached) ==> (detach_result(reply, session, client) matches Err(it)
                && it == broken)
            &&& !(response is ControlReleased) ==> (release_control_result(
                reply,
                lease,
            ) matches Err(it) && it == broken)
        }),
{
}

/// A detach is acknowledged only by the name of the very session and client that asked for it.
pub proof fn only_the_asked_detach_counts(
    answered: ResourceCoordinate,
    by: String,
    session: ResourceCoordinate,
    client: Seq<char>,
)
    ensures
        ({
            let reply = Ok::<PlatformResponse, BackendError>(
                PlatformResponse::Detached { session: answered, client: by },
            );
            &&& answered@ == session@ && by@ == client ==> detach_result(
                reply,
                session,
                client,
            ) is Ok
            &&& answered@ != session@ ==> detach_result(reply, session, client) is Err
            &&& by@ != client ==> detach_result(reply, session, client) is Err
        }),
{
}

/// A release is acknowledged only by the name of the very session, client and lease.
pub proof fn only_the_asked_release_counts(
    answered: ResourceCoordinate,
    by: String,
    id: String,
    lease: ControlLease,
)
    ensures
        ({
            let reply = Ok::<PlatformResponse, BackendError>(
                PlatformResponse::ControlReleased { session: answered, client: by, lease: id },
            );
            &&& answered@ == lease.session@ && by@ == lease.client@ && id@ == lease.id@
                ==> release_control_result(reply, lease) is Ok
            &&& answered@ != lease.session@ ==> release_control_result(reply, lease) is Err
            &&& by@ != lease.client@ ==> release_control_result(reply, lease) is Err
            &&& id@ != lease.id@ ==> release_control_result(reply, lease) is Err
        }),
{
}

/// Whether a record publishes the action of the given name now.
pub open spec fn publishes_now(record: ResourceRecord, name: Seq<char>) -> bool {
    &&& record.resource.authority is Automonique
    &&& record.resource.kind is Client
    &&& record.resource.id@ == "platform-action-"@ + name
    &&& record.freshness.state@ == "fresh"@
}

/// An action is in the registry exactly where a current record publishes it, and there is a
/// registry exactly where every current record that publishes an action publishes a known one.
pub proof fn registry_holds_what_is_published(resources: Seq<ResourceRecord>, action: PlatformAction)
    ensures
        registry_actions(resources) matches Some(actions) ==> (actions.contains(action)
            <==> exists|i: int|
            0 <= i < resources.len() && #[trigger] publishes_now(resources[i], action.name())),
        (exists|i: int|
            0 <= i < resources.len() && publishes_an_action(#[trigger] resources[i])
                && resources[i].freshness.state@ == "fresh"@ && (forall|known: PlatformAction|
                !#[trigger] publishes_now(resources[i], known.name()))) ==> registry_actions(
            resources,
        ) is None,
    decreases resources.len(),
{
    if resources.len() > 0 {
        let before = resources.drop_last();
        let record = resources.last();
        let last = resources.len() - 1;
        registry_holds_what_is_published(before, action);
        entry_names_its_action(record, action);
        if exists|i: int| 0 <= i < resources.len() && unknown_entry(#[trigger] resources[i]) {
            let i = choose|i: int| 0 <= i < resources.len() && unknown_entry(resources[i]);
            if i < last {
                assert(before[i] == resources[i]);
                assert(registry_actions(before) is None);
            } else {
                unknown_entry_has_no_action(record);
            }
        }
        if registry_actions(resources) is Some {
            let actions = registry_actions(resources)->0;
            let earlier = registry_actions(before)->0;
            if actions.contains(action) {
                if earlier.contains(action) {
                    let i = choose|i: int|
                        0 <= i < before.len() && #[trigger] publishes_now(
                            before[i],
                            action.name(),
                        );
                    assert(publishes_now(resources[i], action.name()));
                } else {
                    let at = choose|at: int| 0 <= at < actions.len() && actions[at] == action;
                    if at < earlier.len() {
                        assert(earlier[at] == action);
                    }
                    assert(publishes_now(resources[last], action.name()));
                }
            }
            if exists|i: int|
                0 <= i < resources.len() && #[trigger] publishes_now(resources[i], action.name()) {
                let i = choose|i: int|
                    0 <= i < resources.len() && #[trigger] publishes_now(
                        resources[i],
                        action.name(),
                    );
                if i < last {
                    assert(publishes_now(before[i], action.name()));
                    let at = choose|at: int| 0 <= at < earlier.len() && earlier[at] == action;
                    assert(actions[at] == action);
                } else {
                    assert(actions[actions.len() - 1] == action);
                }
            }
        }
    }
}

spec fn unknown_entry(record: ResourceRecord) -> bool {
    &&& publishes_an_action(record)
    &&& record.freshness.state@ == "fresh"@
    &&& forall|known: PlatformAction| !#[trigger] publishes_now(record, known.name())
}

proof fn entry_names_its_action(record: ResourceRecord, action: PlatformAction)
    ensures
        publishes_now(record, action.name()) <==> registers_action(record)
            && record.freshness.fresh() && registered_action(record) == Some(action),
{
    let prefix = "platform-action-"@;
    let id = record.resource.id@;
    if publishes_now(record, action.name()) {
        assert((prefix + action.name()).take(prefix.len() as int) =~= prefix);
        assert((prefix + action.name()).skip(prefix.len() as int) =~= action.name());
        crate::protocol::action_names_read_back(action);
    }
    if registers_action(record) && registered_action(record) == Some(action) {
        let name = id.skip(prefix.len() as int);
        assert(name == action.name());
        assert(id =~= prefix + name);
    }
}

proof fn unknown_entry_has_no_action(record: ResourceRecord)
    requires
        unknown_entry(record),
    ensures
        registers_action(record),
        registered_action(record) is None,
{
    let prefix = "platform-action-"@;
    let id = record.resource.id@;
    let action = choose|action: Seq<char>| id == #[trigger] (prefix + action);
    assert((prefix + action).take(prefix.len() as int) =~= prefix);
    if registered_action(record) is Some {
        let known = registered_action(record)->0;
        entry_names_its_action(record, known);
        assert(!publishes_now(record, known.name()));
    }
}

/// The actions are published under these names.
pub proof fn actions_are_published_by_name(record: ResourceRecord)
    ensures
        publishes_now(record, "submit_request"@) ==> registered_action(record) == Some(
            PlatformAction::SubmitRequest,
        ),
        publishes_now(record, "follow_up"@) ==> registered_action(record) == Some(
            PlatformAction::FollowUp,
        ),
        publishes_now(record, "steer"@) ==> registered_action(record) == Some(
            PlatformAction::Steer,
        ),
        publishes_now(record, "start_run"@) ==> registered_action(record) == Some(
            PlatformAction::StartRun,
        ),
        publishes_now(record, "stop_run"@) ==> registered_action(record) == Some(
            PlatformAction::StopRun,
        ),
        publishes_now(record, "decide_approval"@) ==> registered_action(record) == Some(
            PlatformAction::DecideApproval,
        ),
{
    entry_names_its_action(record, PlatformAction::SubmitRequest);
    entry_names_its_action(record, PlatformAction::FollowUp);
    entry_names_its_action(record, PlatformAction::Steer);
    entry_names_its_action(record, PlatformAction::StartRun);
    entry_names_its_action(record, PlatformAction::StopRun);
    entry_names_its_action(record, PlatformAction::DecideApproval);
}

/// An overview is asked for in order: capabilities, then the snapshot, then the sessions of the
/// asked authority where the authority lists sessions. Any error ends it, and is told.
pub proof fn overview_is_asked_for_in_order(
    reply: Reply,
    authority: ResourceAuthority,
    capabilities: Capabilities,
    snapshot: Snapshot,
    step: OverviewStep,
)
    ensures
        overview_goes_on(OverviewProgress::Capabilities, reply, authority, step) ==> match reply {
            Err(error) => step == OverviewStep::Failed(error),
            Ok(PlatformResponse::Capabilities(given)) => step matches OverviewStep::Send {
                request,
                progress,
            } && request == PlatformRequest::Snapshot && progress == (OverviewProgress::Snapshot {
                capabilities: given,
            }),
            Ok(_) => step == OverviewStep::Failed(BackendError::Protocol),
        },
        overview_goes_on(OverviewProgress::Snapshot { capabilities }, reply, authority, step)
            ==> match reply {
            Err(error) => step == OverviewStep::Failed(error),
            Ok(PlatformResponse::Snapshot(given)) => method_names(
                capabilities.methods@,
            ).contains("list_sessions"@) ==> (step matches OverviewStep::Send { request, progress }
                && request == (PlatformRequest::ListSessions { authority }) && progress == (
            OverviewProgress::Sessions { capabilities, snapshot: given })),
            Ok(PlatformResponse::Refused { outcome, explanation }) => step
                == OverviewStep::Failed(BackendError::Refused { outcome, explanation }),
            Ok(_) => step == OverviewStep::Failed(BackendError::Protocol),
        },
        overview_goes_on(
            OverviewProgress::Sessions { capabilities, snapshot },
            reply,
            authority,
            step,
        ) ==> match reply {
            Err(error) => step == OverviewStep::Failed(error),
            Ok(PlatformResponse::Sessions(_)) => true,
            Ok(PlatformResponse::Refused { .. }) => true,
            Ok(_) => step == OverviewStep::Failed(BackendError::Protocol),
        },
{
}

/// An overview is made of what was answered: the capabilities, the resources and the cursor of
/// the snapshot, and the listed sessions. It has no sessions where the authority lists none or
/// refuses to.
pub proof fn overview_is_made_of_the_answers(
    authority: ResourceAuthority,
    capabilities: Capabilities,
    snapshot: Snapshot,
    list: SessionList,
    outcome: ReceiptOutcome,
    explanation: String,
    step: OverviewStep,
)
    requires
        registry_actions(snapshot.resources@) is Some,
    ensures
        overview_goes_on(
            OverviewProgress::Sessions { capabilities, snapshot },
            Ok(PlatformResponse::Sessions(list)),
            authority,
            step,
        ) ==> (step matches OverviewStep::Ready(overview) && made_of(
            overview@,
            capabilities,
            snapshot,
            list.sessions@,
        )),
        overview_goes_on(
            OverviewProgress::Sessions { capabilities, snapshot },
            Ok(PlatformResponse::Refused { outcome, explanation }),
            authority,
            step,
        ) ==> (step matches OverviewStep::Ready(overview) && made_of(
            overview@,
            capabilities,
            snapshot,
            Seq::empty(),
        )),
        !method_names(capabilities.methods@).contains("list_sessions"@) && overview_goes_on(
            OverviewProgress::Snapshot { capabilities },
            Ok(PlatformResponse::Snapshot(snapshot)),
            authority,
            step,
        ) ==> (step matches OverviewStep::Ready(overview) && made_of(
            overview@,
            capabilities,
            snapshot,
            Seq::empty(),
        )),
{
}

/// Whether an overview is made of these parts.
pub open spec fn made_of(
    overview: OverviewModel,
    capabilities: Capabilities,
    snapshot: Snapshot,
    sessions: Seq<SessionRecord>,
) -> bool {
    &&& overview.protocol == capabilities.protocol@
    &&& overview.schema == capabilities.schema@
    &&& overview.methods.len() == capabilities.methods@.len()
    &&& forall|i: int|
        0 <= i < overview.methods.len() ==> #[trigger] overview.methods[i]
            == capabilities.methods@[i].name()
    &&& overview.resources == snapshot.resources@
    &&& overview.cursor == snapshot.cursor
    &&& overview.sessions == sessions
    &&& Some(overview.actions) == registry_actions(snapshot.resources@)
}

/// A transport that could not be reached makes the authority unavailable, and an answer that
/// cannot be trusted breaks the protocol.
pub proof fn transport_errors_are_told_apart(error: ClientError)
    ensures
        ({
            let told = <BackendError as vstd::std_specs::convert::FromSpec<ClientError>>::from_spec(
                error,
            );
            &&& error == ClientError::Io || error == ClientError::Endpoint || error
                == ClientError::Unauthorized || error == ClientError::UnexpectedStatus ==> told
                == BackendError::Unavailable
            &&& error == ClientError::Protocol || error == ClientError::Correlation || error
                == ClientError::ResponseTooLarge || error == ClientError::UnexpectedContentType
                ==> told == BackendError::Protocol
        }),
{
}

/// What is said of a refusal holds its outcome and ends with its explanation.
pub proof fn refusals_are_explained(outcome: ReceiptOutcome, explanation: String)
    ensures
        ({
            let words = BackendError::Refused { outcome, explanation }.words();
            let end = outcome@ + ": "@ + explanation@;
            &&& words.len() >= end.len()
            &&& words.skip(words.len() - end.len()) == end
        }),
{
    let words = BackendError::Refused { outcome, explanation }.words();
    let end = outcome@ + ": "@ + explanation@;
    assert(words =~= "operator action "@ + end);
    assert(words.skip(words.len() - end.len()) =~= end);
}

} // verus!
