//! The boundary to the serving authority: what is asked, what each answer means, and a
//! deterministic stand-in for headless runs.

use std::collections::VecDeque;
use vstd::prelude::*;

use crate::protocol::{
    method_names, ActionReceipt, Attachment, Capabilities, ControlLease, PlatformAction,
    PlatformCursor, PlatformMethod, PlatformRequest, PlatformResponse, ReceiptOutcome,
    ResourceAuthority, ResourceCoordinate, ResourceKind, ResourceRecord, SessionRecord, Snapshot,
    Subscription,
};
use crate::text::{has_prefix, same_text, starts_with, strip_prefix};

verus! {

/// Who serves operator state.
#[derive(Clone, Copy, Debug, PartialEq, Eq, Structural)]
pub enum BackendMode {
    Standalone,
    Managed,
}

/// Why a transport gave no answer.
#[derive(Clone, Copy, Debug, PartialEq, Eq, Structural)]
pub enum ClientError {
    Io,
    Endpoint,
    Unauthorized,
    UnexpectedStatus,
    Protocol,
    Correlation,
    ResponseTooLarge,
    UnexpectedContentType,
}

/// Why an operation on the serving authority failed.
#[derive(Clone, Debug, PartialEq, Eq)]
pub enum BackendError {
    Unavailable,
    Protocol,
    Refused { outcome: ReceiptOutcome, explanation: String },
    ExhaustedFake,
}

impl BackendError {
    /// The words in which the failure is shown.
    pub open spec fn words(self) -> Seq<char> {
        match self {
            BackendError::Unavailable => "operator backend unavailable"@,
            BackendError::Protocol => "operator backend protocol refused"@,
            BackendError::Refused { outcome, explanation } => "operator action "@ + outcome@
                + ": "@ + explanation@,
            BackendError::ExhaustedFake => "fake operator backend exhausted"@,
        }
    }

    /// The words in which the failure is shown.
    pub fn message(&self) -> (message: String)
        ensures
            message@ == self.words(),
    {
        match self {
            BackendError::Unavailable => "operator backend unavailable".to_owned(),
            BackendError::Protocol => "operator backend protocol refused".to_owned(),
            BackendError::Refused { outcome, explanation } => {
                let mut message = "operator action ".to_owned();
                message.append(outcome.as_str());
                message.append(": ");
                message.append(explanation.as_str());
                message
            },
            BackendError::ExhaustedFake => "fake operator backend exhausted".to_owned(),
        }
    }
}

/// Failures to reach the authority mean that it is unavailable; answers that cannot be trusted
/// mean that the protocol was refused.
impl From<ClientError> for BackendError {
    fn from(error: ClientError) -> (mapped: Self) {
        match error {
            ClientError::Io | ClientError::Endpoint | ClientError::Unauthorized
            | ClientError::UnexpectedStatus => BackendError::Unavailable,
            ClientError::Protocol | ClientError::Correlation | ClientError::ResponseTooLarge
            | ClientError::UnexpectedContentType => BackendError::Protocol,
        }
    }
}

impl vstd::std_specs::convert::FromSpecImpl<ClientError> for BackendError {
    open spec fn obeys_from_spec() -> bool {
        true
    }

    open spec fn from_spec(error: ClientError) -> BackendError {
        if error is Io || error is Endpoint || error is Unauthorized || error is UnexpectedStatus {
            BackendError::Unavailable
        } else {
            BackendError::Protocol
        }
    }
}

/// An answer, or why there is none.
pub type Reply = Result<PlatformResponse, BackendError>;

/// What an answer that is not the expected one means.
pub open spec fn unexpected(response: PlatformResponse) -> BackendError {
    match response {
        PlatformResponse::Refused { outcome, explanation } => BackendError::Refused {
            outcome,
            explanation,
        },
        _ => BackendError::Protocol,
    }
}

fn refused(response: PlatformResponse) -> (error: BackendError)
    ensures
        error == unexpected(response),
{
    match response {
        PlatformResponse::Refused { outcome, explanation } => BackendError::Refused {
            outcome,
            explanation,
        },
        _ => BackendError::Protocol,
    }
}

/// What an answer to a capabilities request means.
pub open spec fn capabilities_result(reply: Reply) -> Result<Capabilities, BackendError> {
    match reply {
        Err(error) => Err(error),
        Ok(PlatformResponse::Capabilities(value)) => Ok(value),
        Ok(_) => Err(BackendError::Protocol),
    }
}

/// What an answer to a capabilities request means.
pub fn capabilities(reply: Reply) -> (result: Result<Capabilities, BackendError>)
    ensures
        result == capabilities_result(reply),
{
    match reply {
        Err(error) => Err(error),
        Ok(PlatformResponse::Capabilities(value)) => Ok(value),
        Ok(_) => Err(BackendError::Protocol),
    }
}

/// What an answer to a snapshot request means to an overview.
pub open spec fn overview_snapshot_result(reply: Reply) -> Result<Snapshot, BackendError> {
    match reply {
        Err(error) => Err(error),
        Ok(PlatformResponse::Snapshot(value)) => Ok(value),
        Ok(other) => Err(unexpected(other)),
    }
}

/// What an answer to a snapshot request means to an overview.
pub fn overview_snapshot(reply: Reply) -> (result: Result<Snapshot, BackendError>)
    ensures
        result == overview_snapshot_result(reply),
{
    match reply {
        Err(error) => Err(error),
        Ok(PlatformResponse::Snapshot(value)) => Ok(value),
        Ok(other) => Err(refused(other)),
    }
}

/// What an answer to an attach request means.
pub open spec fn attach_result(reply: Reply) -> Result<Attachment, BackendError> {
    match reply {
        Err(error) => Err(error),
        Ok(PlatformResponse::Attached(value)) => Ok(value),
        Ok(other) => Err(unexpected(other)),
    }
}

/// What an answer to an attach request means.
pub fn attach(reply: Reply) -> (result: Result<Attachment, BackendError>)
    ensures
        result == attach_result(reply),
{
    match reply {
        Err(error) => Err(error),
        Ok(PlatformResponse::Attached(value)) => Ok(value),
        Ok(other) => Err(refused(other)),
    }
}

/// What an answer to a claim of control means.
pub open spec fn claim_control_result(reply: Reply) -> Result<ControlLease, BackendError> {
    match reply {
        Err(error) => Err(error),
        Ok(PlatformResponse::ControlClaimed(value)) => Ok(value),
        Ok(other) => Err(unexpected(other)),
    }
}

/// What an answer to a claim of control means.
pub fn claim_control(reply: Reply) -> (result: Result<ControlLease, BackendError>)
    ensures
        result == claim_control_result(reply),
{
    match reply {
        Err(error) => Err(error),
        Ok(PlatformResponse::ControlClaimed(value)) => Ok(value),
        Ok(other) => Err(refused(other)),
    }
}

/// What an answer to a subscription request means.
pub open spec fn subscribe_result(reply: Reply) -> Result<Subscription, BackendError> {
    match reply {
        Err(error) => Err(error),
        Ok(PlatformResponse::Subscription(value)) => Ok(value),
        Ok(other) => Err(unexpected(other)),
    }
}

/// What an answer to a subscription request means.
pub fn subscribe(reply: Reply) -> (result: Result<Subscription, BackendError>)
    ensures
        result == subscribe_result(reply),
{
    match reply {
        Err(error) => Err(error),
        Ok(PlatformResponse::Subscription(value)) => Ok(value),
        Ok(other) => Err(refused(other)),
    }
}

/// What an answer to a typed mutation, or to the search for its receipt, means.
pub open spec fn receipt_result(reply: Reply) -> Result<ActionReceipt, BackendError> {
    match reply {
        Err(error) => Err(error),
        Ok(PlatformResponse::Receipt(value)) => Ok(value),
        Ok(other) => Err(unexpected(other)),
    }
}

/// What an answer to a typed mutation, or to the search for its receipt, means.
pub fn receipt(reply: Reply) -> (result: Result<ActionReceipt, BackendError>)
    ensures
        result == receipt_result(reply),
{
    match reply {
        Err(error) => Err(error),
        Ok(PlatformResponse::Receipt(value)) => Ok(value),
        Ok(other) => Err(refused(other)),
    }
}

/// What an answer to a detach request means: only an acknowledgement of this very session and
/// client counts.
pub open spec fn detach_result(
    reply: Reply,
    session: ResourceCoordinate,
    client: Seq<char>,
) -> Result<(), BackendError> {
    match reply {
        Err(error) => Err(error),
        Ok(PlatformResponse::Detached { session: detached, client: by }) => if detached@
            == session@ && by@ == client {
            Ok(())
        } else {
            Err(BackendError::Protocol)
        },
        Ok(other) => Err(unexpected(other)),
    }
}

/// What an answer to a detach request means.
pub fn detach(reply: Reply, session: &ResourceCoordinate, client: &String) -> (result: Result<
    (),
    BackendError,
>)
    ensures
        result == detach_result(reply, *session, client@),
{
    match reply {
        Err(error) => Err(error),
        Ok(PlatformResponse::Detached { session: detached, client: by }) => if detached.is_same(
            session,
        ) && by == *client {
            Ok(())
        } else {
            Err(BackendError::Protocol)
        },
        Ok(other) => Err(refused(other)),
    }
}

/// What an answer to a release of control means: only an acknowledgement of this very lease
/// counts.
pub open spec fn release_control_result(reply: Reply, lease: ControlLease) -> Result<
    (),
    BackendError,
> {
    match reply {
        Err(error) => Err(error),
        Ok(
            PlatformResponse::ControlReleased { session: released, client: by, lease: id },
        ) => if released@ == lease.session@ && by@ == lease.client@ && id@ == lease.id@ {
            Ok(())
        } else {
            Err(BackendError::Protocol)
        },
        Ok(other) => Err(unexpected(other)),
    }
}

/// What an answer to a release of control means.
pub fn release_control(reply: Reply, lease: &ControlLease) -> (result: Result<(), BackendError>)
    ensures
        result == release_control_result(reply, *lease),
{
    match reply {
        Err(error) => Err(error),
        Ok(
            PlatformResponse::ControlReleased { session: released, client: by, lease: id },
        ) => if released.is_same(&lease.session) && by == lease.client && id == lease.id {
            Ok(())
        } else {
            Err(BackendError::Protocol)
        },
        Ok(other) => Err(refused(other)),
    }
}

/// Everything the cockpit shows, as the serving authority projects it.
#[derive(Clone, Debug, PartialEq, Eq)]
pub struct OperatorOverview {
    pub capabilities: Capabilities,
    /// Exact action vocabulary projected by the serving authority as resources. It is
    /// intentionally separate from generic method support.
    pub actions: Vec<PlatformAction>,
    pub resources: Vec<ResourceRecord>,
    pub sessions: Vec<SessionRecord>,
    pub cursor: PlatformCursor,
}

/// Everything the cockpit shows, over sequences.
#[verifier::ext_equal]
pub struct OverviewModel {
    pub protocol: Seq<char>,
    pub schema: Seq<char>,
    /// The wire names of the methods that the authority supports.
    pub methods: Seq<Seq<char>>,
    pub actions: Seq<PlatformAction>,
    pub resources: Seq<ResourceRecord>,
    pub sessions: Seq<SessionRecord>,
    pub cursor: PlatformCursor,
}

impl vstd::view::View for OperatorOverview {
    type V = OverviewModel;

    open spec fn view(&self) -> OverviewModel {
        OverviewModel {
            protocol: self.capabilities.protocol@,
            schema: self.capabilities.schema@,
            methods: method_names(self.capabilities.methods@),
            actions: self.actions@,
            resources: self.resources@,
            sessions: self.sessions@,
            cursor: self.cursor,
        }
    }
}

/// Whether a list holds a method. Methods are told apart by their wire names.
pub fn supports_method(methods: &Vec<PlatformMethod>, method: &PlatformMethod) -> (found: bool)
    ensures
        found == method_names(methods@).contains(method.name()),
{
    let ghost names = method_names(methods@);
    let mut at: usize = 0;
    while at < methods.len()
        invariant
            at <= methods@.len(),
            names == method_names(methods@),
            forall|i: int| 0 <= i < at ==> #[trigger] names[i] != method.name(),
        decreases methods@.len() - at,
    {
        proof {
            assert(names[at as int] == methods@[at as int].name());
        }
        if same_text(methods[at].as_str(), method.as_str()) {
            return true;
        }
        at += 1;
    }
    false
}

/// Whether a record is an entry of the action registry that an authority publishes among its
/// resources.
pub open spec fn registers_action(record: ResourceRecord) -> bool {
    record.resource.authority is Automonique && record.resource.kind is Client && has_prefix(
        record.resource.id@,
        "platform-action-"@,
    )
}

/// Whether a record is an entry of the action registry.
pub fn is_action_registration(record: &ResourceRecord) -> (registers: bool)
    ensures
        registers == registers_action(*record),
{
    matches!(record.resource.authority, ResourceAuthority::Automonique) && matches!(
        record.resource.kind,
        ResourceKind::Client
    ) && starts_with(record.resource.id.as_str(), "platform-action-")
}

/// The action that a registry entry advertises.
pub open spec fn registered_action(record: ResourceRecord) -> Option<PlatformAction> {
    PlatformAction::named(record.resource.id@.skip("platform-action-"@.len() as int))
}

/// The actions that the fresh registry entries among the resources advertise, in order; `None`
/// where one of them advertises an action that is not in the vocabulary.
pub open spec fn registry_actions(resources: Seq<ResourceRecord>) -> Option<Seq<PlatformAction>>
    decreases resources.len(),
{
    if resources.len() == 0 {
        Some(Seq::empty())
    } else {
        let record = resources.last();
        match registry_actions(resources.drop_last()) {
            None => None,
            Some(actions) => if registers_action(record) && record.freshness.fresh() {
                match registered_action(record) {
                    None => None,
                    Some(action) => Some(actions.push(action)),
                }
            } else {
                Some(actions)
            },
        }
    }
}

proof fn registry_actions_of_prefix(resources: Seq<ResourceRecord>, length: int)
    requires
        0 <= length <= resources.len(),
        registry_actions(resources.take(length)) is None,
    ensures
        registry_actions(resources) is None,
    decreases resources.len() - length,
{
    if length == resources.len() {
        assert(resources.take(length) =~= resources);
    } else {
        assert(resources.take(length + 1).drop_last() =~= resources.take(length));
        registry_actions_of_prefix(resources, length + 1);
    }
}

/// The actions that the fresh registry entries among the resources advertise.
pub fn project_actions(resources: &Vec<ResourceRecord>) -> (projected: Option<Vec<PlatformAction>>)
    ensures
        match projected {
            Some(actions) => registry_actions(resources@) == Some(actions@),
            None => registry_actions(resources@) is None,
        },
{
    let mut actions: Vec<PlatformAction> = Vec::new();
    let mut at: usize = 0;
    proof {
        assert(resources@.take(0) =~= Seq::empty());
    }
    while at < resources.len()
        invariant
            at <= resources@.len(),
            registry_actions(resources@.take(at as int)) == Some(actions@),
        decreases resources@.len() - at,
    {
        let record = &resources[at];
        proof {
            assert(resources@.take(at + 1).drop_last() =~= resources@.take(at as int));
        }
        if is_action_registration(record) && record.freshness.is_fresh() {
            let parsed = match strip_prefix(record.resource.id.as_str(), "platform-action-") {
                Some(name) => PlatformAction::parse(name.as_str()),
                None => None,
            };
            match parsed {
                Some(action) => actions.push(action),
                None => {
                    proof {
                        registry_actions_of_prefix(resources@, at + 1);
                    }
                    return None;
                },
            }
        }
        at += 1;
    }
    proof {
        assert(resources@.take(at as int) =~= resources@);
    }
    Some(actions)
}

/// How far an overview has been gathered.
#[derive(Clone, Debug, PartialEq, Eq)]
pub enum OverviewProgress {
    Capabilities,
    Snapshot { capabilities: Capabilities },
    Sessions { capabilities: Capabilities, snapshot: Snapshot },
}

/// What gathering an overview comes to next.
#[derive(Clone, Debug, PartialEq, Eq)]
pub enum OverviewStep {
    Send { request: PlatformRequest, progress: OverviewProgress },
    Ready(OperatorOverview),
    Failed(BackendError),
}

/// Whether a step holds the overview made of the given parts, or fails because their action
/// registry cannot be read.
pub open spec fn assembles(
    step: OverviewStep,
    capabilities: Capabilities,
    snapshot: Snapshot,
    sessions: Seq<SessionRecord>,
) -> bool {
    match registry_actions(snapshot.resources@) {
        None => step == OverviewStep::Failed(BackendError::Protocol),
        Some(actions) => step matches OverviewStep::Ready(overview) && overview@ == (
        OverviewModel {
            protocol: capabilities.protocol@,
            schema: capabilities.schema@,
            methods: method_names(capabilities.methods@),
            actions,
            resources: snapshot.resources@,
            sessions,
            cursor: snapshot.cursor,
        }),
    }
}

/// Puts an overview together from its parts.
pub fn assemble_overview(
    capabilities: Capabilities,
    snapshot: Snapshot,
    sessions: Vec<SessionRecord>,
) -> (step: OverviewStep)
    ensures
        assembles(step, capabilities, snapshot, sessions@),
{
    match project_actions(&snapshot.resources) {
        None => OverviewStep::Failed(BackendError::Protocol),
        Some(actions) => OverviewStep::Ready(
            OperatorOverview {
                capabilities,
                actions,
                resources: snapshot.resources,
                sessions,
                cursor: snapshot.cursor,
            },
        ),
    }
}

/// Begins to gather an overview: the first thing to ask for is what the authority can do.
pub fn overview_start() -> (step: OverviewStep)
    ensures
        step == (OverviewStep::Send {
            request: PlatformRequest::Capabilities,
            progress: OverviewProgress::Capabilities,
        }),
{
    OverviewStep::Send {
        request: PlatformRequest::Capabilities,
        progress: OverviewProgress::Capabilities,
    }
}

/// Whether a step is what follows from an answer while an overview is gathered.
pub open spec fn overview_goes_on(
    progress: OverviewProgress,
    reply: Reply,
    authority: ResourceAuthority,
    step: OverviewStep,
) -> bool {
    match progress {
        OverviewProgress::Capabilities => match capabilities_result(reply) {
            Err(error) => step == OverviewStep::Failed(error),
            Ok(capabilities) => step == (OverviewStep::Send {
                request: PlatformRequest::Snapshot,
                progress: OverviewProgress::Snapshot { capabilities },
            }),
        },
        OverviewProgress::Snapshot { capabilities } => match overview_snapshot_result(reply) {
            Err(error) => step == OverviewStep::Failed(error),
            Ok(snapshot) => if method_names(capabilities.methods@).contains(
                PlatformMethod::ListSessions.name(),
            ) {
                step == (OverviewStep::Send {
                    request: PlatformRequest::ListSessions { authority },
                    progress: OverviewProgress::Sessions { capabilities, snapshot },
                })
            } else {
                assembles(step, capabilities, snapshot, Seq::empty())
            },
        },
        OverviewProgress::Sessions { capabilities, snapshot } => match reply {
            Err(error) => step == OverviewStep::Failed(error),
            Ok(PlatformResponse::Sessions(list)) => assembles(
                step,
                capabilities,
                snapshot,
                list.sessions@,
            ),
            Ok(PlatformResponse::Refused { .. }) => assembles(
                step,
                capabilities,
                snapshot,
                Seq::empty(),
            ),
            Ok(_) => step == OverviewStep::Failed(BackendError::Protocol),
        },
    }
}

/// What follows from an answer while an overview is gathered.
///
/// Capabilities, snapshot and session list are asked for in this order. Sessions are asked for
/// only where the authority lists them, and a refusal to list them counts as no sessions.
pub fn overview_resume(
    progress: OverviewProgress,
    reply: Reply,
    authority: ResourceAuthority,
) -> (step: OverviewStep)
    ensures
        overview_goes_on(progress, reply, authority, step),
{
    match progress {
        OverviewProgress::Capabilities => match capabilities(reply) {
            Err(error) => OverviewStep::Failed(error),
            Ok(capabilities) => OverviewStep::Send {
                request: PlatformRequest::Snapshot,
                progress: OverviewProgress::Snapshot { capabilities },
            },
        },
        OverviewProgress::Snapshot { capabilities } => match overview_snapshot(reply) {
            Err(error) => OverviewStep::Failed(error),
            Ok(snapshot) => if supports_method(
                &capabilities.methods,
                &PlatformMethod::ListSessions,
            ) {
                OverviewStep::Send {
                    request: PlatformRequest::ListSessions { authority },
                    progress: OverviewProgress::Sessions { capabilities, snapshot },
                }
            } else {
                assemble_overview(capabilities, snapshot, Vec::new())
            },
        },
        OverviewProgress::Sessions { capabilities, snapshot } => match reply {
            Err(error) => OverviewStep::Failed(error),
            Ok(PlatformResponse::Sessions(list)) => assemble_overview(
                capabilities,
                snapshot,
                list.sessions,
            ),
            Ok(PlatformResponse::Refused { .. }) => assemble_overview(
                capabilities,
                snapshot,
                Vec::new(),
            ),
            Ok(_) => OverviewStep::Failed(BackendError::Protocol),
        },
    }
}

/// Deterministic backend for headless rendering and interaction runs: it keeps what it was
/// asked and answers from a script.
#[derive(Debug)]
pub struct FakeBackend {
    mode: BackendMode,
    responses: VecDeque<Reply>,
    requests: Vec<PlatformRequest>,
}

impl FakeBackend {
    /// Who this backend stands for.
    pub closed spec fn stands_for(self) -> BackendMode {
        self.mode
    }

    /// The answers that are still to come.
    pub closed spec fn script(self) -> Seq<Reply> {
        self.responses@
    }

    /// What was asked so far.
    pub closed spec fn asked(self) -> Seq<PlatformRequest> {
        self.requests@
    }

    /// A backend that was asked nothing yet and will give the given answers in order.
    pub fn new(mode: BackendMode, responses: Vec<Reply>) -> (backend: Self)
        ensures
            backend.stands_for() == mode,
            backend.script() == responses@,
            backend.asked() == Seq::<PlatformRequest>::empty(),
    {
        let mut script: VecDeque<Reply> = VecDeque::new();
        for response in iter: responses
            invariant
                script@ == iter.seq().take(iter.index() as int),
                iter.seq() == responses@,
        {
            script.push_back(response);
        }
        FakeBackend { mode, responses: script, requests: Vec::new() }
    }

    /// Who this backend stands for.
    pub fn mode(&self) -> (mode: BackendMode)
        ensures
            mode == self.stands_for(),
    {
        self.mode
    }

    /// What was asked so far.
    pub fn requests(&self) -> (requests: Vec<PlatformRequest>)
        ensures
            requests@ == self.asked(),
    {
        self.requests.clone()
    }

    /// Keeps the request and gives the next answer of the script, or `ExhaustedFake` where the
    /// script has come to its end.
    pub fn request(&mut self, request: PlatformRequest) -> (reply: Reply)
        ensures
            final(self).stands_for() == old(self).stands_for(),
            final(self).asked() == old(self).asked().push(request),
            old(self).script().len() > 0 ==> reply == old(self).script()[0] && final(self).script()
                == old(self).script().skip(1),
            old(self).script().len() == 0 ==> reply == Reply::Err(BackendError::ExhaustedFake)
                && final(self).script() == old(self).script(),
    {
        self.requests.push(request);
        match self.responses.pop_front() {
            Some(reply) => reply,
            None => Err(BackendError::ExhaustedFake),
        }
    }
}

} // verus!
