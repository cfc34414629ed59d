//! The roles of a ceremony and who takes which.
//!
//! A ceremony is run by a host, who listens on an endpoint, and by joiners,
//! who dial it. Running a role is network work and the caller's part; this
//! module decides which roles an invocation launches and where they meet.

use crate::text::own;
use vstd::prelude::*;
use vstd::string::*;

verus! {

/// The port on which a session meets unless another is asked for.
pub const PORT: u32 = 6705;

/// Seconds a joiner waits before it dials a host that was launched with it.
pub const JOIN_DELAY_SECS: u64 = 2;

/// The part that one task takes in a ceremony.
#[derive(Clone, Copy, Debug, PartialEq, Eq, Structural)]
pub enum Role {
    /// Listens on the endpoint and waits for the others.
    Host,
    /// Dials the endpoint of a host.
    Joiner,
}

/// What a ceremony produces.
#[derive(Clone, Copy, Debug, PartialEq, Eq, Structural)]
pub enum CeremonyKind {
    /// A new shared key: the session's record.
    KeyGeneration,
    /// A signature on the block queued in the record.
    Signing,
}

/// Why a role did not complete.
#[derive(Clone, Copy, Debug, PartialEq, Eq, Structural)]
pub enum CeremonyError {
    /// The endpoint could not be bound or reached.
    ConnectFailed,
    /// The ceremony broke off before its end.
    ProtocolAborted,
    /// The others did not answer in time.
    Timeout,
}

impl CeremonyError {
    /// The message shown for this error.
    pub open spec fn text(self) -> Seq<char> {
        match self {
            CeremonyError::ConnectFailed => "Couldn't connect to the session."@,
            CeremonyError::ProtocolAborted => "The ceremony was aborted."@,
            CeremonyError::Timeout => "The ceremony timed out."@,
        }
    }

    /// The message shown for this error.
    pub fn message(&self) -> (message: String)
        ensures
            message@ == self.text(),
    {
        match self {
            CeremonyError::ConnectFailed => String::from_str("Couldn't connect to the session."),
            CeremonyError::ProtocolAborted => String::from_str("The ceremony was aborted."),
            CeremonyError::Timeout => String::from_str("The ceremony timed out."),
        }
    }
}

/// Where a session meets.
#[derive(Debug, PartialEq, Eq)]
pub struct Endpoint {
    pub host: String,
    pub port: u32,
}

/// Mathematical value of an [`Endpoint`].
pub struct EndpointModel {
    pub host: Seq<char>,
    pub port: u32,
}

impl View for Endpoint {
    type V = EndpointModel;

    open spec fn view(&self) -> EndpointModel {
        EndpointModel { host: self.host@, port: self.port }
    }
}

/// One role of one ceremony: the host binds `endpoint`, a joiner dials it
/// after `delay_secs` seconds.
#[derive(Debug, PartialEq, Eq)]
pub struct CeremonySession {
    pub role: Role,
    pub kind: CeremonyKind,
    pub endpoint: Endpoint,
    pub delay_secs: u64,
}

/// Mathematical value of a [`CeremonySession`].
pub struct SessionModel {
    pub role: Role,
    pub kind: CeremonyKind,
    pub endpoint: EndpointModel,
    pub delay_secs: u64,
}

impl View for CeremonySession {
    type V = SessionModel;

    open spec fn view(&self) -> SessionModel {
        SessionModel {
            role: self.role,
            kind: self.kind,
            endpoint: self.endpoint@,
            delay_secs: self.delay_secs,
        }
    }
}

/// How an invocation takes part in a session.
#[derive(Debug, PartialEq, Eq)]
pub enum Trigger {
    /// It opens the session on this machine and signs as its first party.
    Start,
    /// It joins the session that `peer` hosts.
    Join { peer: String },
}

/// Mathematical value of a [`Trigger`].
pub enum TriggerModel {
    Start,
    Join { peer: Seq<char> },
}

impl View for Trigger {
    type V = TriggerModel;

    open spec fn view(&self) -> TriggerModel {
        match self {
            Trigger::Start => TriggerModel::Start,
            Trigger::Join { peer } => TriggerModel::Join { peer: peer@ },
        }
    }
}

impl Clone for Trigger {
    fn clone(&self) -> (copy: Self)
        ensures
            copy == *self,
    {
        match self {
            Trigger::Start => Trigger::Start,
            Trigger::Join { peer } => Trigger::Join { peer: peer.clone() },
        }
    }
}

impl TriggerModel {
    /// A `Join` names the peer to dial.
    pub open spec fn is_complete(self) -> bool {
        match self {
            TriggerModel::Start => true,
            TriggerModel::Join { peer } => peer.len() > 0,
        }
    }
}

impl Trigger {
    /// Whether the trigger holds all that it needs.
    pub fn is_complete(&self) -> (complete: bool)
        ensures
            complete == self@.is_complete(),
    {
        match self {
            Trigger::Start => true,
            Trigger::Join { peer } => !peer.as_str().is_empty(),
        }
    }
}

/// The roles that one invocation launches: always a joiner, and a host before
/// it where the invocation opens the session.
#[derive(Debug, PartialEq, Eq)]
pub struct RolePlan {
    pub host: Option<CeremonySession>,
    pub joiner: CeremonySession,
}

/// Mathematical value of a [`RolePlan`].
pub struct PlanModel {
    pub host: Option<SessionModel>,
    pub joiner: SessionModel,
}

impl View for RolePlan {
    type V = PlanModel;

    open spec fn view(&self) -> PlanModel {
        PlanModel {
            host: match self.host {
                Some(session) => Some(session@),
                None => None,
            },
            joiner: self.joiner@,
        }
    }
}

/// The endpoint on this machine at `port`.
pub open spec fn local_endpoint(port: u32) -> EndpointModel {
    EndpointModel { host: "localhost"@, port }
}

/// The roles of a ceremony of `kind` under `trigger`, meeting at `port`.
///
/// `Start` launches a host on the local endpoint and a joiner that dials it
/// after the join delay. `Join` launches one joiner that dials the peer at
/// the same port: after the join delay for a signing, at once for a key
/// generation.
pub open spec fn role_plan(kind: CeremonyKind, trigger: TriggerModel, port: u32) -> PlanModel {
    match trigger {
        TriggerModel::Start => PlanModel {
            host: Some(
                SessionModel {
                    role: Role::Host,
                    kind,
                    endpoint: local_endpoint(port),
                    delay_secs: 0,
                },
            ),
            joiner: SessionModel {
                role: Role::Joiner,
                kind,
                endpoint: local_endpoint(port),
                delay_secs: JOIN_DELAY_SECS,
            },
        },
        TriggerModel::Join { peer } => PlanModel {
            host: None,
            joiner: SessionModel {
                role: Role::Joiner,
                kind,
                endpoint: EndpointModel { host: peer, port },
                delay_secs: if kind == CeremonyKind::Signing {
                    JOIN_DELAY_SECS
                } else {
                    0
                },
            },
        },
    }
}

impl PlanModel {
    /// Whether the plan launches `role`.
    pub open spec fn launches(self, role: Role) -> bool {
        match role {
            Role::Host => self.host is Some,
            Role::Joiner => true,
        }
    }
}

/// Plans the roles of a ceremony of `kind` under `trigger`, meeting at `port`.
pub fn plan_roles(kind: CeremonyKind, trigger: &Trigger, port: u32) -> (plan: RolePlan)
    ensures
        plan@ == role_plan(kind, trigger@, port),
{
    match trigger {
        Trigger::Start => RolePlan {
            host: Some(
                CeremonySession {
                    role: Role::Host,
                    kind,
                    endpoint: Endpoint { host: own("localhost"), port },
                    delay_secs: 0,
                },
            ),
            joiner: CeremonySession {
                role: Role::Joiner,
                kind,
                endpoint: Endpoint { host: own("localhost"), port },
                delay_secs: JOIN_DELAY_SECS,
            },
        },
        Trigger::Join { peer } => {
            let delay_secs: u64 = match kind {
                CeremonyKind::Signing => JOIN_DELAY_SECS,
                CeremonyKind::KeyGeneration => 0,
            };
            RolePlan {
                host: None,
                joiner: CeremonySession {
                    role: Role::Joiner,
                    kind,
                    endpoint: Endpoint { host: peer.clone(), port },
                    delay_secs,
                },
            }
        },
    }
}

} // verus!
