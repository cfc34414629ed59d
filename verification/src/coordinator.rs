//! The coordinator of a ceremony.
//!
//! A signing runs in steps: build the block, load the session's record, store
//! the record with the block queued, run the roles, and reduce what they
//! report. A key generation runs the roles only. Each step but the first is
//! outside work (a call to the ledger, a file, the network), so the coordinator
//! is a state machine: it takes the event that ended one step and answers with
//! the action that begins the next. The caller performs the action and hands
//! back the event.

use crate::artifact::{CeremonyParams, IoError, RecordModel, SignInputRecord};
use crate::intent::{IntentModel, TransactionIntent};
use crate::ledger::{
    block_request, plan_block, AmountPolicy, BlockRequest, BlockRequestModel, BuildError,
    UnsignedBlock,
};
use crate::session::{
    plan_roles, role_plan, CeremonyError, CeremonyKind, PlanModel, Role, RolePlan, Trigger,
    TriggerModel,
};
use crate::state::{StateModel, TransactionState};
use vstd::prelude::*;
use vstd::string::*;

verus! {

/// Why an invocation was refused before it began.
#[derive(Clone, Copy, Debug, PartialEq, Eq, Structural)]
pub enum ValidationError {
    /// An invocation is in flight, or has succeeded.
    Busy,
    /// A `Send` lacks its receiver or its amount.
    IncompleteIntent,
    /// A `Join` does not name the peer to dial.
    MissingPeer,
    /// No path is given for the session's record.
    MissingPath,
    /// The threshold is zero or above the number of participants.
    BadThreshold,
}

/// A request to sign a transaction.
#[derive(Debug, PartialEq, Eq)]
pub struct SigningRequest {
    pub trigger: Trigger,
    pub intent: TransactionIntent,
    /// The shared account, on whose behalf the block is built.
    pub account: String,
    /// Where the session's record lives.
    pub artifact_path: String,
    /// The port at which the session meets.
    pub port: u32,
    pub policy: AmountPolicy,
}

/// Mathematical value of a [`SigningRequest`].
pub struct SigningModel {
    pub trigger: TriggerModel,
    pub intent: IntentModel,
    pub account: Seq<char>,
    pub artifact_path: Seq<char>,
    pub port: u32,
    pub policy: AmountPolicy,
}

impl View for SigningRequest {
    type V = SigningModel;

    open spec fn view(&self) -> SigningModel {
        SigningModel {
            trigger: self.trigger@,
            intent: self.intent@,
            account: self.account@,
            artifact_path: self.artifact_path@,
            port: self.port,
            policy: self.policy,
        }
    }
}

/// A request to generate the key of a new session.
#[derive(Debug, PartialEq, Eq)]
pub struct BootstrapRequest {
    pub trigger: Trigger,
    /// Where the new session's record will live.
    pub artifact_path: String,
    /// The port at which the session meets.
    pub port: u32,
    /// The parameters of the new session.
    pub params: CeremonyParams,
}

/// Mathematical value of a [`BootstrapRequest`].
pub struct BootstrapModel {
    pub trigger: TriggerModel,
    pub artifact_path: Seq<char>,
    pub port: u32,
    pub params: CeremonyParams,
}

impl View for BootstrapRequest {
    type V = BootstrapModel;

    open spec fn view(&self) -> BootstrapModel {
        BootstrapModel {
            trigger: self.trigger@,
            artifact_path: self.artifact_path@,
            port: self.port,
            params: self.params,
        }
    }
}

/// What happened outside.
#[derive(Debug, PartialEq, Eq)]
pub enum Event {
    /// The user asks for a signing.
    StartSigning(SigningRequest),
    /// The user asks for a key generation.
    StartBootstrap(BootstrapRequest),
    /// The ledger service answered the block request.
    BlockBuilt(Result<UnsignedBlock, BuildError>),
    /// The session's record was read, or not.
    ArtifactLoaded(Result<SignInputRecord, IoError>),
    /// The session's record was written, or not.
    ArtifactStored(Result<(), IoError>),
    /// A role ran to its end.
    RoleFinished(Role, Result<(), CeremonyError>),
}

/// Mathematical value of an [`Event`].
pub enum EventModel {
    StartSigning(SigningModel),
    StartBootstrap(BootstrapModel),
    BlockBuilt(Result<Seq<char>, BuildError>),
    ArtifactLoaded(Result<RecordModel, IoError>),
    ArtifactStored(Result<(), IoError>),
    RoleFinished(Role, Result<(), CeremonyError>),
}

/// Mathematical value of the ledger service's answer.
pub open spec fn built_view(result: Result<UnsignedBlock, BuildError>) -> Result<
    Seq<char>,
    BuildError,
> {
    match result {
        Ok(block) => Ok(block@),
        Err(e) => Err(e),
    }
}

/// Mathematical value of what reading the record gave.
pub open spec fn loaded_view(result: Result<SignInputRecord, IoError>) -> Result<
    RecordModel,
    IoError,
> {
    match result {
        Ok(record) => Ok(record@),
        Err(e) => Err(e),
    }
}

impl View for Event {
    type V = EventModel;

    open spec fn view(&self) -> EventModel {
        match self {
            Event::StartSigning(request) => EventModel::StartSigning(request@),
            Event::StartBootstrap(request) => EventModel::StartBootstrap(request@),
            Event::BlockBuilt(result) => EventModel::BlockBuilt(built_view(*result)),
            Event::ArtifactLoaded(result) => EventModel::ArtifactLoaded(loaded_view(*result)),
            Event::ArtifactStored(result) => EventModel::ArtifactStored(*result),
            Event::RoleFinished(role, result) => EventModel::RoleFinished(*role, *result),
        }
    }
}

/// What the caller is to do next.
#[derive(Debug, PartialEq, Eq)]
pub enum Action {
    /// Nothing: wait for the next event.
    Nothing,
    /// Nothing: the request was refused and nothing has changed.
    Reject(ValidationError),
    /// Ask the ledger service for a block, and answer with `BlockBuilt`.
    BuildBlock(BlockRequest),
    /// Read the record at `path`, and answer with `ArtifactLoaded`.
    LoadArtifact { path: String },
    /// Write `record` to `path` in place of what is there, and answer with
    /// `ArtifactStored`.
    StoreArtifact { path: String, record: SignInputRecord },
    /// Launch the roles of `plan` side by side, and answer with one
    /// `RoleFinished` for each as it ends.
    RunRoles { plan: RolePlan, params: CeremonyParams, artifact_path: String },
}

/// Mathematical value of an [`Action`].
pub enum ActionModel {
    Nothing,
    Reject(ValidationError),
    BuildBlock(BlockRequestModel),
    LoadArtifact { path: Seq<char> },
    StoreArtifact { path: Seq<char>, record: RecordModel },
    RunRoles { plan: PlanModel, params: CeremonyParams, artifact_path: Seq<char> },
}

impl View for Action {
    type V = ActionModel;

    open spec fn view(&self) -> ActionModel {
        match self {
            Action::Nothing => ActionModel::Nothing,
            Action::Reject(e) => ActionModel::Reject(*e),
            Action::BuildBlock(request) => ActionModel::BuildBlock(request@),
            Action::LoadArtifact { path } => ActionModel::LoadArtifact { path: path@ },
            Action::StoreArtifact { path, record } => ActionModel::StoreArtifact {
                path: path@,
                record: record@,
            },
            Action::RunRoles { plan, params, artifact_path } => ActionModel::RunRoles {
                plan: plan@,
                params: *params,
                artifact_path: artifact_path@,
            },
        }
    }
}

/// The step that an invocation waits in.
#[derive(Debug, PartialEq, Eq)]
enum Phase {
    Ready,
    Building { request: SigningRequest },
    Loading { request: SigningRequest, block: UnsignedBlock },
    Storing { request: SigningRequest, params: CeremonyParams },
    Running { kind: CeremonyKind, host_pending: bool, joiner_pending: bool, failure: Option<
        CeremonyError,
    > },
}

/// Mathematical value of the step that an invocation waits in.
pub enum PhaseModel {
    /// No invocation is in flight.
    Ready,
    /// The block was asked for.
    Building { request: SigningModel },
    /// The block is there and the record was asked for.
    Loading { request: SigningModel, block: Seq<char> },
    /// The record with the block queued was handed out to be written.
    Storing { request: SigningModel, params: CeremonyParams },
    /// The roles run. `failure` is the first that a role reported.
    Running { kind: CeremonyKind, host_pending: bool, joiner_pending: bool, failure: Option<
        CeremonyError,
    > },
}

impl View for Phase {
    type V = PhaseModel;

    closed spec fn view(&self) -> PhaseModel {
        match self {
            Phase::Ready => PhaseModel::Ready,
            Phase::Building { request } => PhaseModel::Building { request: request@ },
            Phase::Loading { request, block } => PhaseModel::Loading {
                request: request@,
                block: block@,
            },
            Phase::Storing { request, params } => PhaseModel::Storing {
                request: request@,
                params: *params,
            },
            Phase::Running { kind, host_pending, joiner_pending, failure } => PhaseModel::Running {
                kind: *kind,
                host_pending: *host_pending,
                joiner_pending: *joiner_pending,
                failure: *failure,
            },
        }
    }
}

/// Mathematical value of a [`CeremonyCoordinator`].
pub struct CoordinatorModel {
    /// What the user sees.
    pub state: StateModel,
    /// Where the invocation in flight stands.
    pub phase: PhaseModel,
    /// The kind of the invocation that began last.
    pub kind: Option<CeremonyKind>,
}

/// The state machine that drives one ceremony at a time.
#[derive(Debug, PartialEq, Eq)]
pub struct CeremonyCoordinator {
    state: TransactionState,
    phase: Phase,
    kind: Option<CeremonyKind>,
}

impl View for CeremonyCoordinator {
    type V = CoordinatorModel;

    closed spec fn view(&self) -> CoordinatorModel {
        CoordinatorModel { state: self.state@, phase: self.phase@, kind: self.kind }
    }
}

/// What holds of the coordinator at all times.
///
/// An invocation is in flight exactly while the state is `Processing`; roles
/// that run are awaited; the steps of a signing belong to a signing; a
/// success has a kind; and parameters taken from a record are valid.
pub open spec fn inv(c: CoordinatorModel) -> bool {
    &&& (c.phase is Ready) == !(c.state is Processing)
    &&& c.phase matches PhaseModel::Running { kind, host_pending, joiner_pending, .. } ==> (
    host_pending || joiner_pending) && c.kind == Some(kind)
    &&& (c.phase is Building || c.phase is Loading || c.phase is Storing) ==> c.kind == Some(
        CeremonyKind::Signing,
    )
    &&& c.state is Successful ==> c.kind is Some
    &&& c.phase matches PhaseModel::Storing { params, .. } ==> params.valid()
}

/// The message shown when no block could be built.
pub open spec fn block_failure() -> Seq<char> {
    "Couldn't create the block."@
}

/// The coordinator before its first invocation.
pub open spec fn initial() -> CoordinatorModel {
    CoordinatorModel { state: StateModel::Idle, phase: PhaseModel::Ready, kind: None }
}

/// The coordinator at the end of an invocation that failed with `message`.
pub open spec fn failed(c: CoordinatorModel, message: Seq<char>) -> CoordinatorModel {
    CoordinatorModel { state: StateModel::Error(message), phase: PhaseModel::Ready, kind: c.kind }
}

/// What stands against a signing request, if anything.
pub open spec fn signing_objection(c: CoordinatorModel, request: SigningModel) -> Option<
    ValidationError,
> {
    if !c.state.accepts_start() {
        Some(ValidationError::Busy)
    } else if !request.intent.is_complete() {
        Some(ValidationError::IncompleteIntent)
    } else if !request.trigger.is_complete() {
        Some(ValidationError::MissingPeer)
    } else if request.artifact_path.len() == 0 {
        Some(ValidationError::MissingPath)
    } else {
        None
    }
}

/// What stands against a key generation request, if anything.
pub open spec fn bootstrap_objection(c: CoordinatorModel, request: BootstrapModel) -> Option<
    ValidationError,
> {
    if !c.state.accepts_start() {
        Some(ValidationError::Busy)
    } else if !request.params.valid() {
        Some(ValidationError::BadThreshold)
    } else if !request.trigger.is_complete() {
        Some(ValidationError::MissingPeer)
    } else if request.artifact_path.len() == 0 {
        Some(ValidationError::MissingPath)
    } else {
        None
    }
}

/// The roles phase at its beginning.
pub open spec fn running(kind: CeremonyKind, plan: PlanModel) -> PhaseModel {
    PhaseModel::Running {
        kind,
        host_pending: plan.launches(Role::Host),
        joiner_pending: true,
        failure: None,
    }
}

/// A signing is asked for. A request that something stands against is
/// refused and changes nothing. Else the block is planned: where the amount
/// of a `Send` is refused the invocation fails at once, else it begins and
/// the block is asked for.
pub open spec fn on_start_signing(c: CoordinatorModel, request: SigningModel) -> (
    CoordinatorModel,
    ActionModel,
) {
    match signing_objection(c, request) {
        Some(objection) => (c, ActionModel::Reject(objection)),
        None => match block_request(request.intent, request.account, request.policy) {
            Err(_) => (
                CoordinatorModel {
                    state: StateModel::Error(block_failure()),
                    phase: PhaseModel::Ready,
                    kind: Some(CeremonyKind::Signing),
                },
                ActionModel::Nothing,
            ),
            Ok(block) => (
                CoordinatorModel {
                    state: StateModel::Processing,
                    phase: PhaseModel::Building { request },
                    kind: Some(CeremonyKind::Signing),
                },
                ActionModel::BuildBlock(block),
            ),
        },
    }
}

/// A key generation is asked for. A request that something stands against
/// is refused and changes nothing. Else the invocation begins with its roles.
pub open spec fn on_start_bootstrap(c: CoordinatorModel, request: BootstrapModel) -> (
    CoordinatorModel,
    ActionModel,
) {
    match bootstrap_objection(c, request) {
        Some(objection) => (c, ActionModel::Reject(objection)),
        None => {
            let plan = role_plan(CeremonyKind::KeyGeneration, request.trigger, request.port);
            (
                CoordinatorModel {
                    state: StateModel::Processing,
                    phase: running(CeremonyKind::KeyGeneration, plan),
                    kind: Some(CeremonyKind::KeyGeneration),
                },
                ActionModel::RunRoles {
                    plan,
                    params: request.params,
                    artifact_path: request.artifact_path,
                },
            )
        },
    }
}

/// The ledger service has answered. While the block is awaited, a block
/// moves the invocation on to loading the record and a failure ends it. At
/// any other time the answer is ignored.
pub open spec fn on_block_built(c: CoordinatorModel, result: Result<Seq<char>, BuildError>) -> (
    CoordinatorModel,
    ActionModel,
) {
    match c.phase {
        PhaseModel::Building { request } => match result {
            Ok(block) => (
                CoordinatorModel { phase: PhaseModel::Loading { request, block }, ..c },
                ActionModel::LoadArtifact { path: request.artifact_path },
            ),
            Err(_) => (failed(c, block_failure()), ActionModel::Nothing),
        },
        _ => (c, ActionModel::Nothing),
    }
}

/// The record was read, or not. While it is awaited, a valid record has the
/// block queued and is handed out to be written; a failure ends the
/// invocation with its message, and so does a record that is not valid. At
/// any other time the event is ignored.
pub open spec fn on_artifact_loaded(c: CoordinatorModel, result: Result<RecordModel, IoError>) -> (
    CoordinatorModel,
    ActionModel,
) {
    match c.phase {
        PhaseModel::Loading { request, block } => match result {
            Ok(record) => if record.valid() {
                (
                    CoordinatorModel {
                        phase: PhaseModel::Storing { request, params: record.params },
                        ..c
                    },
                    ActionModel::StoreArtifact {
                        path: request.artifact_path,
                        record: record.with_pending(block, request.intent.subtype()),
                    },
                )
            } else {
                (failed(c, IoError::Corrupt.text()), ActionModel::Nothing)
            },
            Err(e) => (failed(c, e.text()), ActionModel::Nothing),
        },
        _ => (c, ActionModel::Nothing),
    }
}

/// The record was written, or not. While that is awaited, success launches
/// the roles and a failure ends the invocation with its message. At any other
/// time the event is ignored.
pub open spec fn on_artifact_stored(c: CoordinatorModel, result: Result<(), IoError>) -> (
    CoordinatorModel,
    ActionModel,
) {
    match c.phase {
        PhaseModel::Storing { request, params } => match result {
            Ok(_) => {
                let plan = role_plan(CeremonyKind::Signing, request.trigger, request.port);
                (
                    CoordinatorModel { phase: running(CeremonyKind::Signing, plan), ..c },
                    ActionModel::RunRoles { plan, params, artifact_path: request.artifact_path },
                )
            },
            Err(e) => (failed(c, e.text()), ActionModel::Nothing),
        },
        _ => (c, ActionModel::Nothing),
    }
}

/// The first failure observed: what was observed before stays.
pub open spec fn first_failure(seen: Option<CeremonyError>, result: Result<(), CeremonyError>)
    -> Option<CeremonyError> {
    match seen {
        Some(e) => Some(e),
        None => match result {
            Ok(_) => None,
            Err(e) => Some(e),
        },
    }
}

/// The state at the end of the roles: `Successful` where none failed, else
/// `Error` with the message of the first failure observed.
pub open spec fn outcome(failure: Option<CeremonyError>) -> StateModel {
    match failure {
        None => StateModel::Successful,
        Some(e) => StateModel::Error(e.text()),
    }
}

/// A role has ended. While roles run, the report of a role that is awaited is
/// taken down; once no role is awaited the invocation ends with the outcome
/// of them all. A report that is not awaited is ignored.
pub open spec fn on_role_finished(
    c: CoordinatorModel,
    role: Role,
    result: Result<(), CeremonyError>,
) -> (CoordinatorModel, ActionModel) {
    match c.phase {
        PhaseModel::Running { kind, host_pending, joiner_pending, failure } => {
            let awaited = match role {
                Role::Host => host_pending,
                Role::Joiner => joiner_pending,
            };
            let host_left = host_pending && role != Role::Host;
            let joiner_left = joiner_pending && role != Role::Joiner;
            let seen = first_failure(failure, result);
            if !awaited {
                (c, ActionModel::Nothing)
            } else if host_left || joiner_left {
                (
                    CoordinatorModel {
                        phase: PhaseModel::Running {
                            kind,
                            host_pending: host_left,
                            joiner_pending: joiner_left,
                            failure: seen,
                        },
                        ..c
                    },
                    ActionModel::Nothing,
                )
            } else {
                (
                    CoordinatorModel { state: outcome(seen), phase: PhaseModel::Ready, ..c },
                    ActionModel::Nothing,
                )
            }
        },
        _ => (c, ActionModel::Nothing),
    }
}

/// The coordinator after `event`, and the action it answers with.
pub open spec fn step(c: CoordinatorModel, event: EventModel) -> (CoordinatorModel, ActionModel) {
    match event {
        EventModel::StartSigning(request) => on_start_signing(c, request),
        EventModel::StartBootstrap(request) => on_start_bootstrap(c, request),
        EventModel::BlockBuilt(result) => on_block_built(c, result),
        EventModel::ArtifactLoaded(result) => on_artifact_loaded(c, result),
        EventModel::ArtifactStored(result) => on_artifact_stored(c, result),
        EventModel::RoleFinished(role, result) => on_role_finished(c, role, result),
    }
}

/// A step taken is the step that `expected` names.
pub open spec fn answers(
    result: (CeremonyCoordinator, Action),
    expected: (CoordinatorModel, ActionModel),
) -> bool {
    result.0@ == expected.0 && result.1@ == expected.1
}

/// The message shown when no block could be built.
pub fn block_failure_message() -> (message: String)
    ensures
        message@ == block_failure(),
{
    String::from_str("Couldn't create the block.")
}

impl CeremonyCoordinator {
    #[verifier::type_invariant]
    spec fn well_formed(self) -> bool {
        inv(self@)
    }

    /// A coordinator that has run nothing yet.
    pub fn new() -> (coordinator: Self)
        ensures
            coordinator@ == initial(),
    {
        CeremonyCoordinator { state: TransactionState::Idle, phase: Phase::Ready, kind: None }
    }

    /// What the user sees.
    pub fn state(&self) -> (state: &TransactionState)
        ensures
            state@ == self@.state,
            inv(self@),
    {
        proof {
            use_type_invariant(self);
        }
        &self.state
    }

    /// The kind of the invocation that began last, if any has.
    pub fn kind(&self) -> (kind: Option<CeremonyKind>)
        ensures
            kind == self@.kind,
    {
        self.kind
    }

    /// Whether a request would be refused as `Busy`.
    pub fn is_busy(&self) -> (busy: bool)
        ensures
            busy == !self@.state.accepts_start(),
    {
        !self.state.accepts_start()
    }

    /// What stands against a signing request, if anything.
    pub fn signing_objection(&self, request: &SigningRequest) -> (objection: Option<
        ValidationError,
    >)
        ensures
            objection == signing_objection(self@, request@),
    {
        if !self.state.accepts_start() {
            Some(ValidationError::Busy)
        } else if !request.intent.is_complete() {
            Some(ValidationError::IncompleteIntent)
        } else if !request.trigger.is_complete() {
            Some(ValidationError::MissingPeer)
        } else if request.artifact_path.as_str().is_empty() {
            Some(ValidationError::MissingPath)
        } else {
            None
        }
    }

    /// What stands against a key generation request, if anything.
    pub fn bootstrap_objection(&self, request: &BootstrapRequest) -> (objection: Option<
        ValidationError,
    >)
        ensures
            objection == bootstrap_objection(self@, request@),
    {
        if !self.state.accepts_start() {
            Some(ValidationError::Busy)
        } else if !request.params.is_valid() {
            Some(ValidationError::BadThreshold)
        } else if !request.trigger.is_complete() {
            Some(ValidationError::MissingPeer)
        } else if request.artifact_path.as_str().is_empty() {
            Some(ValidationError::MissingPath)
        } else {
            None
        }
    }

    /// Begins a signing, or refuses the request.
    pub fn start_signing(self, request: SigningRequest) -> (result: (Self, Action))
        ensures
            answers(result, on_start_signing(self@, request@)),
    {
        proof {
            use_type_invariant(&self);
        }
        match self.signing_objection(&request) {
            Some(objection) => (self, Action::Reject(objection)),
            None => match plan_block(&request.intent, request.account.as_str(), request.policy) {
                Err(_) => (
                    CeremonyCoordinator {
                        state: TransactionState::Error(block_failure_message()),
                        phase: Phase::Ready,
                        kind: Some(CeremonyKind::Signing),
                    },
                    Action::Nothing,
                ),
                Ok(block) => (
                    CeremonyCoordinator {
                        state: TransactionState::Processing,
                        phase: Phase::Building { request },
                        kind: Some(CeremonyKind::Signing),
                    },
                    Action::BuildBlock(block),
                ),
            },
        }
    }

    /// Begins a key generation, or refuses the request.
    pub fn start_bootstrap(self, request: BootstrapRequest) -> (result: (Self, Action))
        ensures
            answers(result, on_start_bootstrap(self@, request@)),
    {
        proof {
            use_type_invariant(&self);
        }
        match self.bootstrap_objection(&request) {
            Some(objection) => (self, Action::Reject(objection)),
            None => {
                let plan = plan_roles(CeremonyKind::KeyGeneration, &request.trigger, request.port);
                let params = request.params;
                let host_pending = plan.host.is_some();
                (
                    CeremonyCoordinator {
                        state: TransactionState::Processing,
                        phase: Phase::Running {
                            kind: CeremonyKind::KeyGeneration,
                            host_pending,
                            joiner_pending: true,
                            failure: None,
                        },
                        kind: Some(CeremonyKind::KeyGeneration),
                    },
                    Action::RunRoles { plan, params, artifact_path: request.artifact_path },
                )
            },
        }
    }

    /// Takes the ledger service's answer to the block request.
    pub fn block_built(self, result: Result<UnsignedBlock, BuildError>) -> (next: (Self, Action))
        ensures
            answers(next, on_block_built(self@, built_view(result))),
    {
        proof {
            use_type_invariant(&self);
        }
        match self.phase {
            Phase::Building { request } => match result {
                Ok(block) => {
                    let path = request.artifact_path.clone();
                    (
                        CeremonyCoordinator {
                            state: self.state,
                            phase: Phase::Loading { request, block },
                            kind: self.kind,
                        },
                        Action::LoadArtifact { path },
                    )
                },
                Err(_) => (
                    CeremonyCoordinator {
                        state: TransactionState::Error(block_failure_message()),
                        phase: Phase::Ready,
                        kind: self.kind,
                    },
                    Action::Nothing,
                ),
            },
            _ => (self, Action::Nothing),
        }
    }

    /// Takes the record that was read, or the reason why none was.
    pub fn artifact_loaded(self, result: Result<SignInputRecord, IoError>) -> (next: (
        Self,
        Action,
    ))
        ensures
            answers(next, on_artifact_loaded(self@, loaded_view(result))),
    {
        proof {
            use_type_invariant(&self);
        }
        match self.phase {
            Phase::Loading { request, block } => match result {
                Ok(record) => {
                    let params = record.params();
                    let path = request.artifact_path.clone();
                    let subtype = request.intent.subtype();
                    (
                        CeremonyCoordinator {
                            state: self.state,
                            phase: Phase::Storing { request, params },
                            kind: self.kind,
                        },
                        Action::StoreArtifact { path, record: record.queue(block, subtype) },
                    )
                },
                Err(e) => (
                    CeremonyCoordinator {
                        state: TransactionState::Error(e.message()),
                        phase: Phase::Ready,
                        kind: self.kind,
                    },
                    Action::Nothing,
                ),
            },
            _ => (self, Action::Nothing),
        }
    }

    /// Takes the news that the record was written, or the reason why not.
    pub fn artifact_stored(self, result: Result<(), IoError>) -> (next: (Self, Action))
        ensures
            answers(next, on_artifact_stored(self@, result)),
    {
        proof {
            use_type_invariant(&self);
        }
        match self.phase {
            Phase::Storing { request, params } => match result {
                Ok(_) => {
                    let plan = plan_roles(CeremonyKind::Signing, &request.trigger, request.port);
                    let host_pending = plan.host.is_some();
                    (
                        CeremonyCoordinator {
                            state: self.state,
                            phase: Phase::Running {
                                kind: CeremonyKind::Signing,
                                host_pending,
                                joiner_pending: true,
                                failure: None,
                            },
                            kind: self.kind,
                        },
                        Action::RunRoles { plan, params, artifact_path: request.artifact_path },
                    )
                },
                Err(e) => (
                    CeremonyCoordinator {
                        state: TransactionState::Error(e.message()),
                        phase: Phase::Ready,
                        kind: self.kind,
                    },
                    Action::Nothing,
                ),
            },
            _ => (self, Action::Nothing),
        }
    }

    /// Takes the report of a role that has ended.
    pub fn role_finished(self, role: Role, result: Result<(), CeremonyError>) -> (next: (
        Self,
        Action,
    ))
        ensures
            answers(next, on_role_finished(self@, role, result)),
    {
        proof {
            use_type_invariant(&self);
        }
        match self.phase {
            Phase::Running { kind, host_pending, joiner_pending, failure } => {
                let awaited = match role {
                    Role::Host => host_pending,
                    Role::Joiner => joiner_pending,
                };
                let host_left = match role {
                    Role::Host => false,
                    Role::Joiner => host_pending,
                };
                let joiner_left = match role {
                    Role::Host => joiner_pending,
                    Role::Joiner => false,
                };
                let seen = match failure {
                    Some(e) => Some(e),
                    None => match result {
                        Ok(_) => None,
                        Err(e) => Some(e),
                    },
                };
                if !awaited {
                    (
                        CeremonyCoordinator {
                            state: self.state,
                            phase: Phase::Running { kind, host_pending, joiner_pending, failure },
                            kind: self.kind,
                        },
                        Action::Nothing,
                    )
                } else if host_left || joiner_left {
                    (
                        CeremonyCoordinator {
                            state: self.state,
                            phase: Phase::Running {
                                kind,
                                host_pending: host_left,
                                joiner_pending: joiner_left,
                                failure: seen,
                            },
                            kind: self.kind,
                        },
                        Action::Nothing,
                    )
                } else {
                    let state = match seen {
                        None => TransactionState::Successful,
                        Some(e) => TransactionState::Error(e.message()),
                    };
                    (
                        CeremonyCoordinator { state, phase: Phase::Ready, kind: self.kind },
                        Action::Nothing,
                    )
                }
            },
            _ => (self, Action::Nothing),
        }
    }

    /// Takes an event and answers with the action that comes next.
    pub fn step(self, event: Event) -> (next: (Self, Action))
        ensures
            answers(next, step(self@, event@)),
    {
        match event {
            Event::StartSigning(request) => self.start_signing(request),
            Event::StartBootstrap(request) => self.start_bootstrap(request),
            Event::BlockBuilt(result) => self.block_built(result),
            Event::ArtifactLoaded(result) => self.artifact_loaded(result),
            Event::ArtifactStored(result) => self.artifact_stored(result),
            Event::RoleFinished(role, result) => self.role_finished(role, result),
        }
    }
}

} // verus!
