use aokiji::artifact::{CeremonyParams, IoError, PendingBlock, RecordParts, SignInputRecord};
use aokiji::coordinator::{
    Action, BootstrapRequest, CeremonyCoordinator, Event, SigningRequest, ValidationError,
};
use aokiji::intent::{Subtype, TransactionIntent};
use aokiji::ledger::{AmountPolicy, BlockRequest, BuildError, UnsignedBlock};
use aokiji::session::{
    CeremonyError, CeremonyKind, CeremonySession, Endpoint, Role, RolePlan, Trigger, PORT,
};
use aokiji::state::TransactionState;

const PATH: &str = "account.json";
const ACCOUNT: &str = "nano_19kqrk7taqnprmy1hcchpkdcpfqnpm7knwdhn9qafhd7b94s99ofngf5ent1";
const RECEIVER: &str = "nano_1receiver";

fn record(participants: u32, threshold: u32) -> SignInputRecord {
    SignInputRecord::from_parts(RecordParts {
        public_aggregated_key: vec![7; 32],
        own_public_share: vec![9; 32],
        participants,
        threshold,
        pending: None,
    })
    .unwrap()
}

fn block() -> UnsignedBlock {
    UnsignedBlock::new("{\"previous\":\"0\"}".to_string())
}

fn send(trigger: Trigger, amount: &str) -> SigningRequest {
    SigningRequest {
        trigger,
        intent: TransactionIntent::Send {
            receiver: RECEIVER.to_string(),
            amount: amount.to_string(),
        },
        account: ACCOUNT.to_string(),
        artifact_path: PATH.to_string(),
        port: PORT,
        policy: AmountPolicy::Reject,
    }
}

fn local(role: Role, kind: CeremonyKind, delay_secs: u64) -> CeremonySession {
    CeremonySession {
        role,
        kind,
        endpoint: Endpoint { host: "localhost".to_string(), port: 6705 },
        delay_secs,
    }
}

/// Drives a signing up to the point where the roles run.
fn signing_with_roles_running(trigger: Trigger) -> CeremonyCoordinator {
    let coordinator = CeremonyCoordinator::new();
    let (coordinator, _) = coordinator.step(Event::StartSigning(send(trigger, "1.5")));
    let (coordinator, _) = coordinator.step(Event::BlockBuilt(Ok(block())));
    let (coordinator, _) = coordinator.step(Event::ArtifactLoaded(Ok(record(3, 2))));
    let (coordinator, action) = coordinator.step(Event::ArtifactStored(Ok(())));
    assert!(matches!(action, Action::RunRoles { .. }));
    coordinator
}

#[test]
fn a_new_coordinator_is_idle() {
    let coordinator = CeremonyCoordinator::new();
    assert_eq!(*coordinator.state(), TransactionState::Idle);
    assert_eq!(coordinator.kind(), None);
    assert!(!coordinator.is_busy());
}

#[test]
fn send_built_loaded_stored_and_both_roles_ok_is_successful() {
    let coordinator = CeremonyCoordinator::new();

    let (coordinator, action) = coordinator.step(Event::StartSigning(send(Trigger::Start, "1.5")));
    assert_eq!(
        action,
        Action::BuildBlock(BlockRequest::Send {
            account: ACCOUNT.to_string(),
            receiver: RECEIVER.to_string(),
            raw: 1_500_000_000_000_000_000_000_000_000_000,
        })
    );
    assert_eq!(*coordinator.state(), TransactionState::Processing);
    assert_eq!(coordinator.kind(), Some(CeremonyKind::Signing));

    let (coordinator, action) = coordinator.step(Event::BlockBuilt(Ok(block())));
    assert_eq!(action, Action::LoadArtifact { path: PATH.to_string() });
    assert_eq!(*coordinator.state(), TransactionState::Processing);

    let (coordinator, action) = coordinator.step(Event::ArtifactLoaded(Ok(record(3, 2))));
    match action {
        Action::StoreArtifact { path, record } => {
            assert_eq!(path, PATH);
            assert_eq!(
                *record.pending(),
                Some(PendingBlock { block: block(), subtype: Subtype::Send })
            );
            assert_eq!(*record.public_aggregated_key(), vec![7; 32]);
            assert_eq!(*record.own_public_share(), vec![9; 32]);
            assert_eq!(record.params(), CeremonyParams { participants: 3, threshold: 2 });
        }
        other => panic!("expected a store, got {:?}", other),
    }
    assert_eq!(*coordinator.state(), TransactionState::Processing);

    let (coordinator, action) = coordinator.step(Event::ArtifactStored(Ok(())));
    assert_eq!(
        action,
        Action::RunRoles {
            plan: RolePlan {
                host: Some(local(Role::Host, CeremonyKind::Signing, 0)),
                joiner: local(Role::Joiner, CeremonyKind::Signing, 2),
            },
            params: CeremonyParams { participants: 3, threshold: 2 },
            artifact_path: PATH.to_string(),
        }
    );
    assert_eq!(*coordinator.state(), TransactionState::Processing);

    let (coordinator, action) = coordinator.step(Event::RoleFinished(Role::Host, Ok(())));
    assert_eq!(action, Action::Nothing);
    assert_eq!(*coordinator.state(), TransactionState::Processing);

    let (coordinator, action) = coordinator.step(Event::RoleFinished(Role::Joiner, Ok(())));
    assert_eq!(action, Action::Nothing);
    assert_eq!(*coordinator.state(), TransactionState::Successful);
}

#[test]
fn absent_artifact_is_an_error_and_no_role_is_launched() {
    let coordinator = CeremonyCoordinator::new();
    let (coordinator, _) = coordinator.step(Event::StartSigning(send(Trigger::Start, "1.5")));
    let (coordinator, _) = coordinator.step(Event::BlockBuilt(Ok(block())));
    let (coordinator, action) = coordinator.step(Event::ArtifactLoaded(Err(IoError::NotFound)));
    assert_eq!(action, Action::Nothing);
    assert_eq!(*coordinator.state(), TransactionState::Error(IoError::NotFound.message()));
    assert_eq!(
        *coordinator.state(),
        TransactionState::Error("Couldn't open the file.".to_string())
    );

    // Whatever arrives afterwards launches nothing and changes nothing.
    let (coordinator, action) = coordinator.step(Event::ArtifactStored(Ok(())));
    assert_eq!(action, Action::Nothing);
    let (coordinator, action) = coordinator.step(Event::RoleFinished(Role::Joiner, Ok(())));
    assert_eq!(action, Action::Nothing);
    assert_eq!(
        *coordinator.state(),
        TransactionState::Error("Couldn't open the file.".to_string())
    );
}

#[test]
fn rejected_block_is_an_error_and_nothing_is_written() {
    let coordinator = CeremonyCoordinator::new();
    let (coordinator, _) = coordinator.step(Event::StartSigning(send(Trigger::Start, "1.5")));
    let (coordinator, action) =
        coordinator.step(Event::BlockBuilt(Err(BuildError::LedgerRejected)));
    // No load and no store is asked for: the file stays as it was.
    assert_eq!(action, Action::Nothing);
    assert_eq!(
        *coordinator.state(),
        TransactionState::Error("Couldn't create the block.".to_string())
    );
    let (coordinator, action) = coordinator.step(Event::ArtifactLoaded(Ok(record(2, 2))));
    assert_eq!(action, Action::Nothing);
    assert_eq!(
        *coordinator.state(),
        TransactionState::Error("Couldn't create the block.".to_string())
    );
}

#[test]
fn every_build_error_gives_the_same_message() {
    for error in [
        BuildError::Network,
        BuildError::LedgerRejected,
        BuildError::NoReceivable,
        BuildError::InvalidAmount,
    ] {
        let coordinator = CeremonyCoordinator::new();
        let (coordinator, _) = coordinator.step(Event::StartSigning(send(Trigger::Start, "2")));
        let (coordinator, action) = coordinator.step(Event::BlockBuilt(Err(error)));
        assert_eq!(action, Action::Nothing);
        assert_eq!(
            *coordinator.state(),
            TransactionState::Error("Couldn't create the block.".to_string())
        );
    }
}

#[test]
fn joiner_connect_failure_is_an_error_though_the_host_succeeded() {
    let coordinator = signing_with_roles_running(Trigger::Start);
    let (coordinator, _) = coordinator.step(Event::RoleFinished(Role::Host, Ok(())));
    assert_eq!(*coordinator.state(), TransactionState::Processing);
    let (coordinator, _) =
        coordinator.step(Event::RoleFinished(Role::Joiner, Err(CeremonyError::ConnectFailed)));
    assert_eq!(
        *coordinator.state(),
        TransactionState::Error(CeremonyError::ConnectFailed.message())
    );
    assert_eq!(
        *coordinator.state(),
        TransactionState::Error("Couldn't connect to the session.".to_string())
    );
}

#[test]
fn joiner_failure_first_then_host_success_is_still_an_error() {
    let coordinator = signing_with_roles_running(Trigger::Start);
    let (coordinator, _) =
        coordinator.step(Event::RoleFinished(Role::Joiner, Err(CeremonyError::ConnectFailed)));
    // The host still runs: the outcome waits for it.
    assert_eq!(*coordinator.state(), TransactionState::Processing);
    let (coordinator, _) = coordinator.step(Event::RoleFinished(Role::Host, Ok(())));
    assert_eq!(
        *coordinator.state(),
        TransactionState::Error("Couldn't connect to the session.".to_string())
    );
}

#[test]
fn the_first_failure_observed_is_the_one_kept() {
    let coordinator = signing_with_roles_running(Trigger::Start);
    let (coordinator, _) =
        coordinator.step(Event::RoleFinished(Role::Host, Err(CeremonyError::Timeout)));
    let (coordinator, _) =
        coordinator.step(Event::RoleFinished(Role::Joiner, Err(CeremonyError::ProtocolAborted)));
    assert_eq!(
        *coordinator.state(),
        TransactionState::Error("The ceremony timed out.".to_string())
    );

    let coordinator = signing_with_roles_running(Trigger::Start);
    let (coordinator, _) =
        coordinator.step(Event::RoleFinished(Role::Joiner, Err(CeremonyError::ProtocolAborted)));
    let (coordinator, _) =
        coordinator.step(Event::RoleFinished(Role::Host, Err(CeremonyError::Timeout)));
    assert_eq!(
        *coordinator.state(),
        TransactionState::Error("The ceremony was aborted.".to_string())
    );
}

#[test]
fn a_role_that_reports_twice_counts_once() {
    let coordinator = signing_with_roles_running(Trigger::Start);
    let (coordinator, _) = coordinator.step(Event::RoleFinished(Role::Host, Ok(())));
    let (coordinator, action) =
        coordinator.step(Event::RoleFinished(Role::Host, Err(CeremonyError::Timeout)));
    assert_eq!(action, Action::Nothing);
    assert_eq!(*coordinator.state(), TransactionState::Processing);
    let (coordinator, _) = coordinator.step(Event::RoleFinished(Role::Joiner, Ok(())));
    assert_eq!(*coordinator.state(), TransactionState::Successful);
}

#[test]
fn a_remote_join_launches_one_joiner_that_dials_the_peer() {
    let trigger = Trigger::Join { peer: "192.168.1.20".to_string() };
    let coordinator = CeremonyCoordinator::new();
    let (coordinator, _) = coordinator.step(Event::StartSigning(send(trigger, "1.5")));
    let (coordinator, _) = coordinator.step(Event::BlockBuilt(Ok(block())));
    let (coordinator, _) = coordinator.step(Event::ArtifactLoaded(Ok(record(3, 2))));
    let (coordinator, action) = coordinator.step(Event::ArtifactStored(Ok(())));
    assert_eq!(
        action,
        Action::RunRoles {
            plan: RolePlan {
                host: None,
                joiner: CeremonySession {
                    role: Role::Joiner,
                    kind: CeremonyKind::Signing,
                    endpoint: Endpoint { host: "192.168.1.20".to_string(), port: 6705 },
                    delay_secs: 2,
                },
            },
            params: CeremonyParams { participants: 3, threshold: 2 },
            artifact_path: PATH.to_string(),
        }
    );
    // No host was launched, so its report is not awaited.
    let (coordinator, _) = coordinator.step(Event::RoleFinished(Role::Host, Ok(())));
    assert_eq!(*coordinator.state(), TransactionState::Processing);
    let (coordinator, _) = coordinator.step(Event::RoleFinished(Role::Joiner, Ok(())));
    assert_eq!(*coordinator.state(), TransactionState::Successful);
}

#[test]
fn a_store_failure_is_an_error_and_no_role_is_launched() {
    let coordinator = CeremonyCoordinator::new();
    let (coordinator, _) = coordinator.step(Event::StartSigning(send(Trigger::Start, "1.5")));
    let (coordinator, _) = coordinator.step(Event::BlockBuilt(Ok(block())));
    let (coordinator, _) = coordinator.step(Event::ArtifactLoaded(Ok(record(2, 2))));
    let (coordinator, action) = coordinator.step(Event::ArtifactStored(Err(IoError::Unwritable)));
    assert_eq!(action, Action::Nothing);
    assert_eq!(
        *coordinator.state(),
        TransactionState::Error("Couldn't write the file.".to_string())
    );
}

#[test]
fn a_corrupt_artifact_is_an_error() {
    let coordinator = CeremonyCoordinator::new();
    let (coordinator, _) = coordinator.step(Event::StartSigning(send(Trigger::Start, "1.5")));
    let (coordinator, _) = coordinator.step(Event::BlockBuilt(Ok(block())));
    let (coordinator, action) = coordinator.step(Event::ArtifactLoaded(Err(IoError::Corrupt)));
    assert_eq!(action, Action::Nothing);
    assert_eq!(
        *coordinator.state(),
        TransactionState::Error("File has invalid format.".to_string())
    );
}

#[test]
fn bootstrap_with_threshold_above_participants_is_rejected() {
    let coordinator = CeremonyCoordinator::new();
    let (coordinator, action) = coordinator.step(Event::StartBootstrap(BootstrapRequest {
        trigger: Trigger::Start,
        artifact_path: PATH.to_string(),
        port: PORT,
        params: CeremonyParams { participants: 2, threshold: 3 },
    }));
    assert_eq!(action, Action::Reject(ValidationError::BadThreshold));
    assert_eq!(coordinator, CeremonyCoordinator::new());
    assert_eq!(*coordinator.state(), TransactionState::Idle);
}

#[test]
fn bootstrap_with_threshold_zero_is_rejected() {
    let coordinator = CeremonyCoordinator::new();
    let (coordinator, action) = coordinator.step(Event::StartBootstrap(BootstrapRequest {
        trigger: Trigger::Start,
        artifact_path: PATH.to_string(),
        port: PORT,
        params: CeremonyParams { participants: 0, threshold: 0 },
    }));
    assert_eq!(action, Action::Reject(ValidationError::BadThreshold));
    assert_eq!(*coordinator.state(), TransactionState::Idle);
}

#[test]
fn bootstrap_launches_host_and_joiner_and_succeeds() {
    let coordinator = CeremonyCoordinator::new();
    let (coordinator, action) = coordinator.step(Event::StartBootstrap(BootstrapRequest {
        trigger: Trigger::Start,
        artifact_path: PATH.to_string(),
        port: PORT,
        params: CeremonyParams { participants: 2, threshold: 2 },
    }));
    assert_eq!(
        action,
        Action::RunRoles {
            plan: RolePlan {
                host: Some(local(Role::Host, CeremonyKind::KeyGeneration, 0)),
                joiner: local(Role::Joiner, CeremonyKind::KeyGeneration, 2),
            },
            params: CeremonyParams { participants: 2, threshold: 2 },
            artifact_path: PATH.to_string(),
        }
    );
    assert_eq!(*coordinator.state(), TransactionState::Processing);
    assert_eq!(coordinator.kind(), Some(CeremonyKind::KeyGeneration));
    let (coordinator, _) = coordinator.step(Event::RoleFinished(Role::Joiner, Ok(())));
    assert_eq!(*coordinator.state(), TransactionState::Processing);
    let (coordinator, _) = coordinator.step(Event::RoleFinished(Role::Host, Ok(())));
    assert_eq!(*coordinator.state(), TransactionState::Successful);
}

#[test]
fn bootstrap_join_dials_the_peer_at_once() {
    let coordinator = CeremonyCoordinator::new();
    let (coordinator, action) = coordinator.step(Event::StartBootstrap(BootstrapRequest {
        trigger: Trigger::Join { peer: "10.0.0.5".to_string() },
        artifact_path: PATH.to_string(),
        port: PORT,
        params: CeremonyParams { participants: 2, threshold: 2 },
    }));
    assert_eq!(
        action,
        Action::RunRoles {
            plan: RolePlan {
                host: None,
                joiner: CeremonySession {
                    role: Role::Joiner,
                    kind: CeremonyKind::KeyGeneration,
                    endpoint: Endpoint { host: "10.0.0.5".to_string(), port: 6705 },
                    delay_secs: 0,
                },
            },
            params: CeremonyParams { participants: 2, threshold: 2 },
            artifact_path: PATH.to_string(),
        }
    );
    let (coordinator, _) =
        coordinator.step(Event::RoleFinished(Role::Joiner, Err(CeremonyError::Timeout)));
    assert_eq!(
        *coordinator.state(),
        TransactionState::Error("The ceremony timed out.".to_string())
    );
}

#[test]
fn requests_are_refused_for_what_they_lack() {
    let coordinator = CeremonyCoordinator::new();

    let mut request = send(Trigger::Start, "1");
    request.intent =
        TransactionIntent::Send { receiver: String::new(), amount: "1".to_string() };
    let (coordinator, action) = coordinator.step(Event::StartSigning(request));
    assert_eq!(action, Action::Reject(ValidationError::IncompleteIntent));

    let request = send(Trigger::Start, "");
    let (coordinator, action) = coordinator.step(Event::StartSigning(request));
    assert_eq!(action, Action::Reject(ValidationError::IncompleteIntent));

    let request = send(Trigger::Join { peer: String::new() }, "1");
    let (coordinator, action) = coordinator.step(Event::StartSigning(request));
    assert_eq!(action, Action::Reject(ValidationError::MissingPeer));

    let mut request = send(Trigger::Start, "1");
    request.artifact_path = String::new();
    let (coordinator, action) = coordinator.step(Event::StartSigning(request));
    assert_eq!(action, Action::Reject(ValidationError::MissingPath));

    let (coordinator, action) = coordinator.step(Event::StartBootstrap(BootstrapRequest {
        trigger: Trigger::Join { peer: String::new() },
        artifact_path: PATH.to_string(),
        port: PORT,
        params: CeremonyParams { participants: 2, threshold: 2 },
    }));
    assert_eq!(action, Action::Reject(ValidationError::MissingPeer));

    let (coordinator, action) = coordinator.step(Event::StartBootstrap(BootstrapRequest {
        trigger: Trigger::Start,
        artifact_path: String::new(),
        port: PORT,
        params: CeremonyParams { participants: 2, threshold: 2 },
    }));
    assert_eq!(action, Action::Reject(ValidationError::MissingPath));

    // None of the refusals changed anything.
    assert_eq!(coordinator, CeremonyCoordinator::new());
}

#[test]
fn a_request_in_flight_refuses_the_next() {
    let coordinator = CeremonyCoordinator::new();
    let (coordinator, _) = coordinator.step(Event::StartSigning(send(Trigger::Start, "1")));
    assert!(coordinator.is_busy());
    let (coordinator, action) = coordinator.step(Event::StartSigning(send(Trigger::Start, "2")));
    assert_eq!(action, Action::Reject(ValidationError::Busy));
    let (coordinator, action) = coordinator.step(Event::StartBootstrap(BootstrapRequest {
        trigger: Trigger::Start,
        artifact_path: PATH.to_string(),
        port: PORT,
        params: CeremonyParams { participants: 2, threshold: 2 },
    }));
    assert_eq!(action, Action::Reject(ValidationError::Busy));
    // The first invocation goes on undisturbed.
    let (_, action) = coordinator.step(Event::BlockBuilt(Ok(block())));
    assert_eq!(action, Action::LoadArtifact { path: PATH.to_string() });
}

#[test]
fn an_error_can_be_retried_and_a_success_cannot() {
    let coordinator = CeremonyCoordinator::new();
    let (coordinator, _) = coordinator.step(Event::StartSigning(send(Trigger::Start, "1")));
    let (coordinator, _) = coordinator.step(Event::BlockBuilt(Err(BuildError::Network)));
    assert!(!coordinator.is_busy());
    let (coordinator, action) = coordinator.step(Event::StartSigning(send(Trigger::Start, "1")));
    assert!(matches!(action, Action::BuildBlock(_)));
    assert_eq!(*coordinator.state(), TransactionState::Processing);

    let coordinator = signing_with_roles_running(Trigger::Join { peer: "peer".to_string() });
    let (coordinator, _) = coordinator.step(Event::RoleFinished(Role::Joiner, Ok(())));
    assert_eq!(*coordinator.state(), TransactionState::Successful);
    assert!(coordinator.is_busy());
    let (coordinator, action) = coordinator.step(Event::StartSigning(send(Trigger::Start, "1")));
    assert_eq!(action, Action::Reject(ValidationError::Busy));
    assert_eq!(*coordinator.state(), TransactionState::Successful);
}

#[test]
fn an_amount_without_raw_value_fails_or_counts_as_zero() {
    let coordinator = CeremonyCoordinator::new();
    let (coordinator, action) =
        coordinator.step(Event::StartSigning(send(Trigger::Start, "a lot")));
    assert_eq!(action, Action::Nothing);
    assert_eq!(
        *coordinator.state(),
        TransactionState::Error("Couldn't create the block.".to_string())
    );

    let mut request = send(Trigger::Start, "a lot");
    request.policy = AmountPolicy::TreatAsZero;
    let (coordinator, action) = coordinator.step(Event::StartSigning(request));
    assert_eq!(
        action,
        Action::BuildBlock(BlockRequest::Send {
            account: ACCOUNT.to_string(),
            receiver: RECEIVER.to_string(),
            raw: 0,
        })
    );
    assert_eq!(*coordinator.state(), TransactionState::Processing);
}

#[test]
fn events_that_are_not_awaited_are_ignored() {
    let coordinator = CeremonyCoordinator::new();
    let (coordinator, action) = coordinator.step(Event::BlockBuilt(Ok(block())));
    assert_eq!(action, Action::Nothing);
    let (coordinator, action) = coordinator.step(Event::ArtifactLoaded(Ok(record(2, 1))));
    assert_eq!(action, Action::Nothing);
    let (coordinator, action) = coordinator.step(Event::ArtifactStored(Ok(())));
    assert_eq!(action, Action::Nothing);
    let (coordinator, action) = coordinator.step(Event::RoleFinished(Role::Joiner, Ok(())));
    assert_eq!(action, Action::Nothing);
    assert_eq!(coordinator, CeremonyCoordinator::new());

    let (coordinator, _) = coordinator.step(Event::StartSigning(send(Trigger::Start, "1")));
    let (coordinator, action) = coordinator.step(Event::ArtifactStored(Ok(())));
    assert_eq!(action, Action::Nothing);
    let (coordinator, action) = coordinator.step(Event::RoleFinished(Role::Host, Ok(())));
    assert_eq!(action, Action::Nothing);
    assert_eq!(*coordinator.state(), TransactionState::Processing);
}

#[test]
fn the_methods_do_what_step_does() {
    let coordinator = CeremonyCoordinator::new();
    let (coordinator, action) = coordinator.start_signing(send(Trigger::Start, "0.25"));
    assert_eq!(
        action,
        Action::BuildBlock(BlockRequest::Send {
            account: ACCOUNT.to_string(),
            receiver: RECEIVER.to_string(),
            raw: 250_000_000_000_000_000_000_000_000_000,
        })
    );
    let (coordinator, action) = coordinator.block_built(Ok(block()));
    assert_eq!(action, Action::LoadArtifact { path: PATH.to_string() });
    let (coordinator, action) = coordinator.artifact_loaded(Ok(record(2, 2)));
    assert!(matches!(action, Action::StoreArtifact { .. }));
    let (coordinator, action) = coordinator.artifact_stored(Ok(()));
    assert!(matches!(action, Action::RunRoles { .. }));
    let (coordinator, _) = coordinator.role_finished(Role::Host, Ok(()));
    let (coordinator, _) = coordinator.role_finished(Role::Joiner, Ok(()));
    assert_eq!(*coordinator.state(), TransactionState::Successful);

    let coordinator = CeremonyCoordinator::new();
    let request = BootstrapRequest {
        trigger: Trigger::Start,
        artifact_path: PATH.to_string(),
        port: PORT,
        params: CeremonyParams { participants: 3, threshold: 4 },
    };
    assert_eq!(coordinator.bootstrap_objection(&request), Some(ValidationError::BadThreshold));
    let (coordinator, action) = coordinator.start_bootstrap(request);
    assert_eq!(action, Action::Reject(ValidationError::BadThreshold));
    assert_eq!(coordinator.signing_objection(&send(Trigger::Start, "1")), None);
}

#[test]
fn open_and_receive_ask_for_their_blocks() {
    let coordinator = CeremonyCoordinator::new();
    let mut request = send(Trigger::Start, "");
    request.intent = TransactionIntent::Open;
    let (_, action) = coordinator.step(Event::StartSigning(request));
    assert_eq!(action, Action::BuildBlock(BlockRequest::Open { account: ACCOUNT.to_string() }));

    let coordinator = CeremonyCoordinator::new();
    let mut request = send(Trigger::Start, "");
    request.intent = TransactionIntent::Receive;
    let (coordinator, action) = coordinator.step(Event::StartSigning(request));
    assert_eq!(action, Action::BuildBlock(BlockRequest::Receive { account: ACCOUNT.to_string() }));
    let (coordinator, _) = coordinator.step(Event::BlockBuilt(Ok(block())));
    let (_, action) = coordinator.step(Event::ArtifactLoaded(Ok(record(2, 2))));
    match action {
        Action::StoreArtifact { record, .. } => {
            assert_eq!(
                *record.pending(),
                Some(PendingBlock { block: block(), subtype: Subtype::Receive })
            );
        }
        other => panic!("expected a store, got {:?}", other),
    }
}

#[test]
fn the_session_meets_at_the_port_that_is_asked_for() {
    let coordinator = CeremonyCoordinator::new();
    let (_, action) = coordinator.step(Event::StartBootstrap(BootstrapRequest {
        trigger: Trigger::Start,
        artifact_path: PATH.to_string(),
        port: 7000,
        params: CeremonyParams { participants: 2, threshold: 2 },
    }));
    match action {
        Action::RunRoles { plan, .. } => {
            assert_eq!(plan.host.unwrap().endpoint.port, 7000);
            assert_eq!(plan.joiner.endpoint.port, 7000);
        }
        other => panic!("expected roles, got {:?}", other),
    }
}

#[test]
fn success_is_not_reached_past_the_block_or_the_store() {
    // Roles that report without having been launched change nothing.
    let coordinator = CeremonyCoordinator::new();
    let (coordinator, _) = coordinator.step(Event::StartSigning(send(Trigger::Start, "1")));
    let (coordinator, _) = coordinator.step(Event::RoleFinished(Role::Host, Ok(())));
    let (coordinator, _) = coordinator.step(Event::RoleFinished(Role::Joiner, Ok(())));
    assert_eq!(*coordinator.state(), TransactionState::Processing);

    // The news of a store that was never asked for launches nothing.
    let (coordinator, action) = coordinator.step(Event::ArtifactStored(Ok(())));
    assert_eq!(action, Action::Nothing);
    let (coordinator, _) = coordinator.step(Event::RoleFinished(Role::Joiner, Ok(())));
    assert_eq!(*coordinator.state(), TransactionState::Processing);

    // Nor does a record that arrives before the block.
    let (coordinator, action) = coordinator.step(Event::ArtifactLoaded(Ok(record(2, 2))));
    assert_eq!(action, Action::Nothing);
    assert_eq!(*coordinator.state(), TransactionState::Processing);
}
