//! The `automonique.platform/v1` vocabulary: what the operator client and the serving
//! authority exchange, as plain values.

use vstd::prelude::*;

use crate::text::same_text;

verus! {

/// The authority that serves a resource.
#[derive(Debug, PartialEq, Eq)]
pub enum ResourceAuthority {
    Automonique,
    Provider,
    /// A member that this client does not name, by its wire name.
    Other(String),
}

/// The authority that serves a resource, over character sequences.
pub enum AuthorityModel {
    Automonique,
    Provider,
    Other(Seq<char>),
}

impl vstd::view::View for ResourceAuthority {
    type V = AuthorityModel;

    open spec fn view(&self) -> AuthorityModel {
        match *self {
            ResourceAuthority::Automonique => AuthorityModel::Automonique,
            ResourceAuthority::Provider => AuthorityModel::Provider,
            ResourceAuthority::Other(name) => AuthorityModel::Other(name@),
        }
    }
}

impl AuthorityModel {
    /// The wire name.
    pub open spec fn name(self) -> Seq<char> {
        match self {
            AuthorityModel::Automonique => "automonique"@,
            AuthorityModel::Provider => "provider"@,
            AuthorityModel::Other(name) => name,
        }
    }
}

impl Clone for ResourceAuthority {
    fn clone(&self) -> (copy: Self)
        ensures
            copy == *self,
    {
        match self {
            ResourceAuthority::Automonique => ResourceAuthority::Automonique,
            ResourceAuthority::Provider => ResourceAuthority::Provider,
            ResourceAuthority::Other(name) => ResourceAuthority::Other(name.clone()),
        }
    }
}

impl ResourceAuthority {
    /// The wire name.
    pub fn as_str(&self) -> (name: &str)
        ensures
            name@ == self@.name(),
    {
        match self {
            ResourceAuthority::Automonique => "automonique",
            ResourceAuthority::Provider => "provider",
            ResourceAuthority::Other(name) => name.as_str(),
        }
    }

    /// Whether two values are the same member.
    pub fn is_same(&self, other: &Self) -> (same: bool)
        ensures
            same == (self@ == other@),
    {
        match (self, other) {
            (ResourceAuthority::Automonique, ResourceAuthority::Automonique) => true,
            (ResourceAuthority::Provider, ResourceAuthority::Provider) => true,
            (ResourceAuthority::Other(left), ResourceAuthority::Other(right)) => *left == *right,
            _ => false,
        }
    }
}

/// What a resource is.
#[derive(Debug, PartialEq, Eq)]
pub enum ResourceKind {
    Node,
    Run,
    Session,
    Approval,
    Model,
    Receipt,
    Client,
    ControlLease,
    /// A member that this client does not name, by its wire name.
    Other(String),
}

/// What a resource is, over character sequences.
pub enum KindModel {
    Node,
    Run,
    Session,
    Approval,
    Model,
    Receipt,
    Client,
    ControlLease,
    Other(Seq<char>),
}

impl vstd::view::View for ResourceKind {
    type V = KindModel;

    open spec fn view(&self) -> KindModel {
        match *self {
            ResourceKind::Node => KindModel::Node,
            ResourceKind::Run => KindModel::Run,
            ResourceKind::Session => KindModel::Session,
            ResourceKind::Approval => KindModel::Approval,
            ResourceKind::Model => KindModel::Model,
            ResourceKind::Receipt => KindModel::Receipt,
            ResourceKind::Client => KindModel::Client,
            ResourceKind::ControlLease => KindModel::ControlLease,
            ResourceKind::Other(name) => KindModel::Other(name@),
        }
    }
}

impl KindModel {
    /// The wire name.
    pub open spec fn name(self) -> Seq<char> {
        match self {
            KindModel::Node => "node"@,
            KindModel::Run => "run"@,
            KindModel::Session => "session"@,
            KindModel::Approval => "approval"@,
            KindModel::Model => "model"@,
            KindModel::Receipt => "receipt"@,
            KindModel::Client => "client"@,
            KindModel::ControlLease => "control_lease"@,
            KindModel::Other(name) => name,
        }
    }
}

impl Clone for ResourceKind {
    fn clone(&self) -> (copy: Self)
        ensures
            copy == *self,
    {
        match self {
            ResourceKind::Node => ResourceKind::Node,
            ResourceKind::Run => ResourceKind::Run,
            ResourceKind::Session => ResourceKind::Session,
            ResourceKind::Approval => ResourceKind::Approval,
            ResourceKind::Model => ResourceKind::Model,
            ResourceKind::Receipt => ResourceKind::Receipt,
            ResourceKind::Client => ResourceKind::Client,
            ResourceKind::ControlLease => ResourceKind::ControlLease,
            ResourceKind::Other(name) => ResourceKind::Other(name.clone()),
        }
    }
}

impl ResourceKind {
    /// The wire name.
    pub fn as_str(&self) -> (name: &str)
        ensures
            name@ == self@.name(),
    {
        match self {
            ResourceKind::Node => "node",
            ResourceKind::Run => "run",
            ResourceKind::Session => "session",
            ResourceKind::Approval => "approval",
            ResourceKind::Model => "model",
            ResourceKind::Receipt => "receipt",
            ResourceKind::Client => "client",
            ResourceKind::ControlLease => "control_lease",
            ResourceKind::Other(name) => name.as_str(),
        }
    }

    /// Whether two values are the same member.
    pub fn is_same(&self, other: &Self) -> (same: bool)
        ensures
            same == (self@ == other@),
    {
        match (self, other) {
            (ResourceKind::Node, ResourceKind::Node) => true,
            (ResourceKind::Run, ResourceKind::Run) => true,
            (ResourceKind::Session, ResourceKind::Session) => true,
            (ResourceKind::Approval, ResourceKind::Approval) => true,
            (ResourceKind::Model, ResourceKind::Model) => true,
            (ResourceKind::Receipt, ResourceKind::Receipt) => true,
            (ResourceKind::Client, ResourceKind::Client) => true,
            (ResourceKind::ControlLease, ResourceKind::ControlLease) => true,
            (ResourceKind::Other(left), ResourceKind::Other(right)) => *left == *right,
            _ => false,
        }
    }
}

/// How current a projection is.
#[derive(Debug, PartialEq, Eq)]
pub enum FreshnessState {
    Fresh,
    Stale,
    /// A member that this client does not name, by its wire name.
    Other(String),
}

/// The wire name is all that is read of it.
impl vstd::view::View for FreshnessState {
    type V = Seq<char>;

    open spec fn view(&self) -> Seq<char> {
        match *self {
            FreshnessState::Fresh => "fresh"@,
            FreshnessState::Stale => "stale"@,
            FreshnessState::Other(name) => name@,
        }
    }
}

impl Clone for FreshnessState {
    fn clone(&self) -> (copy: Self)
        ensures
            copy == *self,
    {
        match self {
            FreshnessState::Fresh => FreshnessState::Fresh,
            FreshnessState::Stale => FreshnessState::Stale,
            FreshnessState::Other(name) => FreshnessState::Other(name.clone()),
        }
    }
}

impl FreshnessState {
    /// The wire name.
    pub fn as_str(&self) -> (name: &str)
        ensures
            name@ == self@,
    {
        match self {
            FreshnessState::Fresh => "fresh",
            FreshnessState::Stale => "stale",
            FreshnessState::Other(name) => name.as_str(),
        }
    }
}

/// What became of a requested action.
#[derive(Debug, PartialEq, Eq)]
pub enum ReceiptOutcome {
    Accepted,
    Completed,
    Rejected,
    /// A member that this client does not name, by its wire name.
    Other(String),
}

/// The wire name is all that is read of it.
impl vstd::view::View for ReceiptOutcome {
    type V = Seq<char>;

    open spec fn view(&self) -> Seq<char> {
        match *self {
            ReceiptOutcome::Accepted => "accepted"@,
            ReceiptOutcome::Completed => "completed"@,
            ReceiptOutcome::Rejected => "rejected"@,
            ReceiptOutcome::Other(name) => name@,
        }
    }
}

impl Clone for ReceiptOutcome {
    fn clone(&self) -> (copy: Self)
        ensures
            copy == *self,
    {
        match self {
            ReceiptOutcome::Accepted => ReceiptOutcome::Accepted,
            ReceiptOutcome::Completed => ReceiptOutcome::Completed,
            ReceiptOutcome::Rejected => ReceiptOutcome::Rejected,
            ReceiptOutcome::Other(name) => ReceiptOutcome::Other(name.clone()),
        }
    }
}

impl ReceiptOutcome {
    /// The wire name.
    pub fn as_str(&self) -> (name: &str)
        ensures
            name@ == self@,
    {
        match self {
            ReceiptOutcome::Accepted => "accepted",
            ReceiptOutcome::Completed => "completed",
            ReceiptOutcome::Rejected => "rejected",
            ReceiptOutcome::Other(name) => name.as_str(),
        }
    }
}

/// A mutation that a serving authority may advertise.
#[derive(Clone, Copy, Debug, PartialEq, Eq, Structural)]
pub enum PlatformAction {
    SubmitRequest,
    FollowUp,
    Steer,
    StartRun,
    StopRun,
    DecideApproval,
}

impl PlatformAction {
    /// The wire name.
    pub open spec fn name(self) -> Seq<char> {
        match self {
            PlatformAction::SubmitRequest => "submit_request"@,
            PlatformAction::FollowUp => "follow_up"@,
            PlatformAction::Steer => "steer"@,
            PlatformAction::StartRun => "start_run"@,
            PlatformAction::StopRun => "stop_run"@,
            PlatformAction::DecideApproval => "decide_approval"@,
        }
    }

    /// The wire name.
    pub fn as_str(self) -> (name: &'static str)
        ensures
            name@ == self.name(),
    {
        match self {
            PlatformAction::SubmitRequest => "submit_request",
            PlatformAction::FollowUp => "follow_up",
            PlatformAction::Steer => "steer",
            PlatformAction::StartRun => "start_run",
            PlatformAction::StopRun => "stop_run",
            PlatformAction::DecideApproval => "decide_approval",
        }
    }
}

/// A request method that a serving authority may support.
#[derive(Debug, PartialEq, Eq)]
pub enum PlatformMethod {
    Capabilities,
    Snapshot,
    ListSessions,
    Attach,
    Detach,
    ClaimControl,
    ReleaseControl,
    Subscribe,
    Execute,
    GetReceipt,
    /// A method that this client does not know, by its wire name.
    Other(String),
}

impl Clone for PlatformMethod {
    fn clone(&self) -> (copy: Self)
        ensures
            copy == *self,
    {
        match self {
            PlatformMethod::Capabilities => PlatformMethod::Capabilities,
            PlatformMethod::Snapshot => PlatformMethod::Snapshot,
            PlatformMethod::ListSessions => PlatformMethod::ListSessions,
            PlatformMethod::Attach => PlatformMethod::Attach,
            PlatformMethod::Detach => PlatformMethod::Detach,
            PlatformMethod::ClaimControl => PlatformMethod::ClaimControl,
            PlatformMethod::ReleaseControl => PlatformMethod::ReleaseControl,
            PlatformMethod::Subscribe => PlatformMethod::Subscribe,
            PlatformMethod::Execute => PlatformMethod::Execute,
            PlatformMethod::GetReceipt => PlatformMethod::GetReceipt,
            PlatformMethod::Other(name) => PlatformMethod::Other(name.clone()),
        }
    }
}

impl PlatformMethod {
    /// The wire name.
    pub open spec fn name(self) -> Seq<char> {
        match self {
            PlatformMethod::Capabilities => "capabilities"@,
            PlatformMethod::Snapshot => "snapshot"@,
            PlatformMethod::ListSessions => "list_sessions"@,
            PlatformMethod::Attach => "attach"@,
            PlatformMethod::Detach => "detach"@,
            PlatformMethod::ClaimControl => "claim_control"@,
            PlatformMethod::ReleaseControl => "release_control"@,
            PlatformMethod::Subscribe => "subscribe"@,
            PlatformMethod::Execute => "execute"@,
            PlatformMethod::GetReceipt => "get_receipt"@,
            PlatformMethod::Other(name) => name@,
        }
    }

    /// The wire name.
    pub fn as_str(&self) -> (name: &str)
        ensures
            name@ == self.name(),
    {
        match self {
            PlatformMethod::Capabilities => "capabilities",
            PlatformMethod::Snapshot => "snapshot",
            PlatformMethod::ListSessions => "list_sessions",
            PlatformMethod::Attach => "attach",
            PlatformMethod::Detach => "detach",
            PlatformMethod::ClaimControl => "claim_control",
            PlatformMethod::ReleaseControl => "release_control",
            PlatformMethod::Subscribe => "subscribe",
            PlatformMethod::Execute => "execute",
            PlatformMethod::GetReceipt => "get_receipt",
            PlatformMethod::Other(name) => name.as_str(),
        }
    }
}

/// The wire names of methods, in order.
pub open spec fn method_names(methods: Seq<PlatformMethod>) -> Seq<Seq<char>> {
    methods.map_values(|method: PlatformMethod| method.name())
}

/// The durable identity of a resource.
#[derive(Debug, PartialEq, Eq)]
pub struct ResourceCoordinate {
    pub authority: ResourceAuthority,
    pub kind: ResourceKind,
    pub id: String,
}

impl Clone for ResourceCoordinate {
    fn clone(&self) -> (copy: Self)
        ensures
            copy == *self,
    {
        ResourceCoordinate {
            authority: self.authority.clone(),
            kind: self.kind.clone(),
            id: self.id.clone(),
        }
    }
}

/// The durable identity of a resource, over character sequences.
pub struct CoordinateModel {
    pub authority: AuthorityModel,
    pub kind: KindModel,
    pub id: Seq<char>,
}

impl vstd::view::View for ResourceCoordinate {
    type V = CoordinateModel;

    open spec fn view(&self) -> CoordinateModel {
        CoordinateModel { authority: self.authority@, kind: self.kind@, id: self.id@ }
    }
}

impl ResourceCoordinate {
    /// Whether two coordinates name the same resource.
    pub fn is_same(&self, other: &Self) -> (same: bool)
        ensures
            same == (self@ == other@),
    {
        self.authority.is_same(&other.authority) && self.kind.is_same(&other.kind) && self.id
            == other.id
    }
}

/// How current a projection is, and which revision it shows.
#[derive(Debug, PartialEq, Eq)]
pub struct Freshness {
    pub state: FreshnessState,
    pub observed_at: i64,
    pub revision: u64,
}

impl Clone for Freshness {
    fn clone(&self) -> (copy: Self)
        ensures
            copy == *self,
    {
        Freshness {
            state: self.state.clone(),
            observed_at: self.observed_at,
            revision: self.revision,
        }
    }
}

impl Freshness {
    /// Whether the projection is current.
    pub open spec fn fresh(self) -> bool {
        self.state@ == "fresh"@
    }

    /// Whether the projection is current.
    pub fn is_fresh(&self) -> (fresh: bool)
        ensures
            fresh == self.fresh(),
    {
        same_text(self.state.as_str(), "fresh")
    }
}

/// One resource as its authority projects it.
#[derive(Debug, PartialEq, Eq)]
pub struct ResourceRecord {
    pub resource: ResourceCoordinate,
    pub freshness: Freshness,
    pub summary: String,
}

impl Clone for ResourceRecord {
    fn clone(&self) -> (copy: Self)
        ensures
            copy == *self,
    {
        ResourceRecord {
            resource: self.resource.clone(),
            freshness: self.freshness.clone(),
            summary: self.summary.clone(),
        }
    }
}

/// One session and what a client may do with it.
#[derive(Debug, PartialEq, Eq)]
pub struct SessionRecord {
    pub session: ResourceRecord,
    pub run: Option<ResourceCoordinate>,
    pub attachable: bool,
    pub controllable: bool,
}

impl Clone for SessionRecord {
    fn clone(&self) -> (copy: Self)
        ensures
            copy == *self,
    {
        SessionRecord {
            session: self.session.clone(),
            run: self.run.clone(),
            attachable: self.attachable,
            controllable: self.controllable,
        }
    }
}

/// A position in an event stream.
#[derive(Debug, PartialEq, Eq)]
pub struct PlatformCursor {
    pub authority: ResourceAuthority,
    pub topic: String,
    pub sequence: u64,
}

impl Clone for PlatformCursor {
    fn clone(&self) -> (copy: Self)
        ensures
            copy == *self,
    {
        PlatformCursor {
            authority: self.authority.clone(),
            topic: self.topic.clone(),
            sequence: self.sequence,
        }
    }
}

/// An observer's hold on a session.
#[derive(Debug, PartialEq, Eq)]
pub struct Attachment {
    pub session: ResourceCoordinate,
    pub client: String,
    pub cursor: PlatformCursor,
}

impl Clone for Attachment {
    fn clone(&self) -> (copy: Self)
        ensures
            copy == *self,
    {
        Attachment {
            session: self.session.clone(),
            client: self.client.clone(),
            cursor: self.cursor.clone(),
        }
    }
}

/// A short exclusive controller lease on a session.
#[derive(Debug, PartialEq, Eq)]
pub struct ControlLease {
    pub id: String,
    pub session: ResourceCoordinate,
    pub client: String,
    pub expires_at: i64,
    pub revision: u64,
}

impl Clone for ControlLease {
    fn clone(&self) -> (copy: Self)
        ensures
            copy == *self,
    {
        ControlLease {
            id: self.id.clone(),
            session: self.session.clone(),
            client: self.client.clone(),
            expires_at: self.expires_at,
            revision: self.revision,
        }
    }
}

/// The durable answer to a requested action.
#[derive(Debug, PartialEq, Eq)]
pub struct ActionReceipt {
    pub id: String,
    pub action: PlatformAction,
    pub target: ResourceCoordinate,
    pub outcome: ReceiptOutcome,
    pub revision: u64,
    pub recorded_at: i64,
    pub explanation: Option<String>,
}

impl Clone for ActionReceipt {
    fn clone(&self) -> (copy: Self)
        ensures
            copy == *self,
    {
        ActionReceipt {
            id: self.id.clone(),
            action: self.action,
            target: self.target.clone(),
            outcome: self.outcome.clone(),
            revision: self.revision,
            recorded_at: self.recorded_at,
            explanation: self.explanation.clone(),
        }
    }
}

/// One change of a resource.
#[derive(Debug, PartialEq, Eq)]
pub struct PlatformEvent {
    pub cursor: PlatformCursor,
    pub resource: ResourceRecord,
}

impl Clone for PlatformEvent {
    fn clone(&self) -> (copy: Self)
        ensures
            copy == *self,
    {
        PlatformEvent {
            cursor: self.cursor.clone(),
            resource: self.resource.clone(),
        }
    }
}

/// The changes since a cursor, and the cursor after them.
#[derive(Debug, PartialEq, Eq, Clone)]
pub struct Subscription {
    pub events: Vec<PlatformEvent>,
    pub cursor: PlatformCursor,
}

/// Every resource at a cursor.
#[derive(Debug, PartialEq, Eq, Clone)]
pub struct Snapshot {
    pub resources: Vec<ResourceRecord>,
    pub cursor: PlatformCursor,
}

/// Every session at a cursor.
#[derive(Debug, PartialEq, Eq, Clone)]
pub struct SessionList {
    pub sessions: Vec<SessionRecord>,
    pub cursor: PlatformCursor,
}

/// The protocol that a serving authority speaks, and the methods it supports.
#[derive(Debug, PartialEq, Eq, Clone)]
pub struct Capabilities {
    pub protocol: String,
    pub schema: String,
    pub methods: Vec<PlatformMethod>,
}

/// A typed mutation against one revision of one target.
#[derive(Debug, PartialEq, Eq)]
pub struct ExecuteRequest {
    pub action: PlatformAction,
    pub target: ResourceCoordinate,
    pub idempotency_key: String,
    pub expected_revision: Option<u64>,
    pub parameter: Option<String>,
}

impl Clone for ExecuteRequest {
    fn clone(&self) -> (copy: Self)
        ensures
            copy == *self,
    {
        ExecuteRequest {
            action: self.action,
            target: self.target.clone(),
            idempotency_key: self.idempotency_key.clone(),
            expected_revision: self.expected_revision,
            parameter: self.parameter.clone(),
        }
    }
}

/// What a client asks of a serving authority.
#[derive(Debug, PartialEq, Eq)]
pub enum PlatformRequest {
    Capabilities,
    Snapshot,
    ListSessions { authority: ResourceAuthority },
    Attach { session: ResourceCoordinate, client: String },
    ClaimControl { session: ResourceCoordinate, client: String, idempotency_key: String },
    Subscribe { cursor: Option<PlatformCursor> },
    Execute(ExecuteRequest),
    GetReceipt { idempotency_key: String },
    Detach { session: ResourceCoordinate, client: String },
    ReleaseControl { session: ResourceCoordinate, client: String, lease: String, idempotency_key: String },
}

impl Clone for PlatformRequest {
    fn clone(&self) -> (copy: Self)
        ensures
            copy == *self,
    {
        match self {
            PlatformRequest::Capabilities => PlatformRequest::Capabilities,
            PlatformRequest::Snapshot => PlatformRequest::Snapshot,
            PlatformRequest::ListSessions { authority } => PlatformRequest::ListSessions {
                authority: authority.clone(),
            },
            PlatformRequest::Attach { session, client } => PlatformRequest::Attach {
                session: session.clone(),
                client: client.clone(),
            },
            PlatformRequest::ClaimControl { session, client, idempotency_key } => PlatformRequest::ClaimControl {
                session: session.clone(),
                client: client.clone(),
                idempotency_key: idempotency_key.clone(),
            },
            PlatformRequest::Subscribe { cursor } => PlatformRequest::Subscribe {
                cursor: cursor.clone(),
            },
            PlatformRequest::Execute(request) => PlatformRequest::Execute(request.clone()),
            PlatformRequest::GetReceipt { idempotency_key } => PlatformRequest::GetReceipt {
                idempotency_key: idempotency_key.clone(),
            },
            PlatformRequest::Detach { session, client } => PlatformRequest::Detach {
                session: session.clone(),
                client: client.clone(),
            },
            PlatformRequest::ReleaseControl { session, client, lease, idempotency_key } => PlatformRequest::ReleaseControl {
                session: session.clone(),
                client: client.clone(),
                lease: lease.clone(),
                idempotency_key: idempotency_key.clone(),
            },
        }
    }
}

/// What a serving authority answers.
#[derive(Clone, Debug, PartialEq, Eq)]
pub enum PlatformResponse {
    Capabilities(Capabilities),
    Snapshot(Snapshot),
    Sessions(SessionList),
    Attached(Attachment),
    ControlClaimed(ControlLease),
    Subscription(Subscription),
    Receipt(ActionReceipt),
    Detached { session: ResourceCoordinate, client: String },
    ControlReleased { session: ResourceCoordinate, client: String, lease: String },
    Refused { outcome: ReceiptOutcome, explanation: String },
}

impl PlatformAction {
    /// The action with the given wire name.
    pub open spec fn named(name: Seq<char>) -> Option<PlatformAction> {
        if name == "submit_request"@ {
            Some(PlatformAction::SubmitRequest)
        } else if name == "follow_up"@ {
            Some(PlatformAction::FollowUp)
        } else if name == "steer"@ {
            Some(PlatformAction::Steer)
        } else if name == "start_run"@ {
            Some(PlatformAction::StartRun)
        } else if name == "stop_run"@ {
            Some(PlatformAction::StopRun)
        } else if name == "decide_approval"@ {
            Some(PlatformAction::DecideApproval)
        } else {
            None
        }
    }

    /// The action with the given wire name, if there is one.
    pub fn parse(name: &str) -> (action: Option<PlatformAction>)
        ensures
            action == PlatformAction::named(name@),
    {
        if same_text(name, "submit_request") {
            Some(PlatformAction::SubmitRequest)
        } else if same_text(name, "follow_up") {
            Some(PlatformAction::FollowUp)
        } else if same_text(name, "steer") {
            Some(PlatformAction::Steer)
        } else if same_text(name, "start_run") {
            Some(PlatformAction::StartRun)
        } else if same_text(name, "stop_run") {
            Some(PlatformAction::StopRun)
        } else if same_text(name, "decide_approval") {
            Some(PlatformAction::DecideApproval)
        } else {
            None
        }
    }
}

/// Reading a wire name back gives the action that was written.
pub proof fn action_names_read_back(action: PlatformAction)
    ensures
        PlatformAction::named(action.name()) == Some(action),
{
    reveal_strlit("submit_request");
    reveal_strlit("follow_up");
    reveal_strlit("steer");
    reveal_strlit("start_run");
    reveal_strlit("stop_run");
    reveal_strlit("decide_approval");
    assert("follow_up"@[0] == 'f');
    assert("submit_request"@[1] == 'u');
    assert("steer"@[1] == 't');
    assert("steer"@[2] == 'e');
    assert("start_run"@[1] == 't');
    assert("start_run"@[2] == 'a');
    assert("stop_run"@[1] == 't');
    assert("stop_run"@[2] == 'o');
    assert("decide_approval"@[0] == 'd');
}

} // verus!
