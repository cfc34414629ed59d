use aokiji::session::{
    plan_roles, CeremonyError, CeremonyKind, CeremonySession, Endpoint, Role, RolePlan, Trigger,
    JOIN_DELAY_SECS, PORT,
};

#[test]
fn the_session_port_and_delay() {
    assert_eq!(PORT, 6705);
    assert_eq!(JOIN_DELAY_SECS, 2);
}

#[test]
fn start_plans_a_local_host_and_a_delayed_joiner() {
    for kind in [CeremonyKind::KeyGeneration, CeremonyKind::Signing] {
        let plan = plan_roles(kind, &Trigger::Start, PORT);
        assert_eq!(
            plan,
            RolePlan {
                host: Some(CeremonySession {
                    role: Role::Host,
                    kind,
                    endpoint: Endpoint { host: "localhost".to_string(), port: 6705 },
                    delay_secs: 0,
                }),
                joiner: CeremonySession {
                    role: Role::Joiner,
                    kind,
                    endpoint: Endpoint { host: "localhost".to_string(), port: 6705 },
                    delay_secs: 2,
                },
            }
        );
    }
}

#[test]
fn join_plans_one_joiner_for_the_peer() {
    let trigger = Trigger::Join { peer: "example.org".to_string() };
    let signing = plan_roles(CeremonyKind::Signing, &trigger, PORT);
    assert_eq!(signing.host, None);
    assert_eq!(signing.joiner.role, Role::Joiner);
    assert_eq!(signing.joiner.endpoint, Endpoint { host: "example.org".to_string(), port: 6705 });
    assert_eq!(signing.joiner.delay_secs, 2);

    let keygen = plan_roles(CeremonyKind::KeyGeneration, &trigger, 7001);
    assert_eq!(keygen.host, None);
    assert_eq!(keygen.joiner.kind, CeremonyKind::KeyGeneration);
    assert_eq!(keygen.joiner.endpoint, Endpoint { host: "example.org".to_string(), port: 7001 });
    assert_eq!(keygen.joiner.delay_secs, 0);
}

#[test]
fn a_join_needs_a_peer() {
    assert!(Trigger::Start.is_complete());
    assert!(Trigger::Join { peer: "host".to_string() }.is_complete());
    assert!(!Trigger::Join { peer: String::new() }.is_complete());
    assert_eq!(Trigger::Join { peer: "host".to_string() }.clone(), Trigger::Join { peer: "host".to_string() });
}

#[test]
fn each_ceremony_error_has_its_message() {
    assert_eq!(CeremonyError::ConnectFailed.message(), "Couldn't connect to the session.");
    assert_eq!(CeremonyError::ProtocolAborted.message(), "The ceremony was aborted.");
    assert_eq!(CeremonyError::Timeout.message(), "The ceremony timed out.");
}
