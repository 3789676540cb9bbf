use turntie::addr::TransportAddr;
use turntie::descriptor::SessionSnapshot;
use turntie::errors::{ErrorKind, RendezvousError};
use turntie::rendezvous::{RelayCommand, RelayEvent, Rendezvous, Side};

const ADDR_A: TransportAddr = TransportAddr::V4 { ip: 0x0a000001, port: 40001 };
const ADDR_B: TransportAddr = TransportAddr::V4 { ip: 0x0a000002, port: 40002 };

fn granted(a: TransportAddr) -> RelayEvent {
    RelayEvent::AllocationGranted { relay_address: a, mobility: true }
}

fn snapshot(tag: u8) -> SessionSnapshot {
    SessionSnapshot {
        realm: vec![b'r', tag],
        nonce: vec![b'n', tag],
        mobility_ticket: vec![tag; 4],
    }
}

/// Drives a full successful rendezvous, first side's grant arriving first or
/// last, and returns every command issued along the way.
fn drive(first_grant_first: bool) -> (Rendezvous, Vec<(Side, RelayCommand)>) {
    let mut rz = Rendezvous::new();
    let mut issued: Vec<(Side, RelayCommand)> = Vec::new();

    let order: [(Side, RelayEvent); 2] = if first_grant_first {
        [(Side::First, granted(ADDR_A)), (Side::Second, granted(ADDR_B))]
    } else {
        [(Side::Second, granted(ADDR_B)), (Side::First, granted(ADDR_A))]
    };
    for (side, ev) in order {
        issued.extend(rz.step(side, ev).expect("a mobility-enabled grant is accepted"));
    }
    issued.extend(
        rz.step(Side::First, RelayEvent::PermissionCreated(ADDR_B))
            .expect("confirmation for the recorded counterpart is accepted"),
    );
    issued.extend(
        rz.step(Side::Second, RelayEvent::PermissionCreated(ADDR_A))
            .expect("confirmation for the recorded counterpart is accepted"),
    );
    assert!(rz.is_complete());
    (rz, issued)
}

#[test]
fn cross_authorization_issued_exactly_once() {
    let (_, issued) = drive(true);
    assert_eq!(
        issued,
        vec![
            (Side::First, RelayCommand::AddPermission(ADDR_B)),
            (Side::Second, RelayCommand::AddPermission(ADDR_A)),
        ]
    );
}

#[test]
fn cross_authorization_is_order_independent() {
    let (_, issued_ab) = drive(true);
    let (_, issued_ba) = drive(false);
    assert_eq!(issued_ab, issued_ba);
}

#[test]
fn descriptors_cross_reference_relay_addresses() {
    let (rz, _) = drive(true);
    let (d1, d2) = rz.make_descriptors(
        TransportAddr::V4 { ip: 0x7f000001, port: 3478 },
        b"user".to_vec(),
        b"pass".to_vec(),
        snapshot(1),
        snapshot(2),
    );
    assert_eq!(d1.counterpart, ADDR_B);
    assert_eq!(d2.counterpart, ADDR_A);
    assert_eq!(d1.username, d2.username);
    assert_eq!(d1.password, d2.password);
    assert_eq!(d1.realm, vec![b'r', 1]);
    assert_eq!(d2.realm, vec![b'r', 2]);
    assert_eq!(d1.mobility_ticket, vec![1; 4]);
    assert_eq!(d2.mobility_ticket, vec![2; 4]);
}

#[test]
fn redirect_is_fatal_unsupported_server() {
    let mut rz = Rendezvous::new();
    let alt = TransportAddr::V4 { ip: 0x0a000003, port: 3478 };
    let e = rz
        .step(Side::First, RelayEvent::RedirectedToAlternateServer(alt))
        .unwrap_err();
    assert_eq!(e, RendezvousError::Redirected(alt));
    assert_eq!(e.kind(), ErrorKind::UnsupportedServerBehavior);
}

#[test]
fn missing_mobility_is_fatal_unsupported_server() {
    let mut rz = Rendezvous::new();
    let e = rz
        .step(
            Side::First,
            RelayEvent::AllocationGranted { relay_address: ADDR_A, mobility: false },
        )
        .unwrap_err();
    assert_eq!(e, RendezvousError::MobilityNotGranted);
    assert_eq!(e.kind(), ErrorKind::UnsupportedServerBehavior);
}

#[test]
fn denied_authorization_is_fatal_remote_rejection() {
    let mut rz = Rendezvous::new();
    rz.step(Side::First, granted(ADDR_A)).unwrap();
    rz.step(Side::Second, granted(ADDR_B)).unwrap();
    let e = rz
        .step(Side::First, RelayEvent::PermissionNotCreated(ADDR_B))
        .unwrap_err();
    assert_eq!(e, RendezvousError::AuthorizationDenied(ADDR_B));
    assert_eq!(e.kind(), ErrorKind::RemoteRejection);
}

#[test]
fn disconnect_and_stream_end_are_fatal() {
    let mut rz = Rendezvous::new();
    let e = rz.step(Side::First, RelayEvent::Disconnected).unwrap_err();
    assert_eq!(e, RendezvousError::Disconnected);
    assert_eq!(e.kind(), ErrorKind::RemoteRejection);

    let mut rz = Rendezvous::new();
    let e = rz.step(Side::Second, RelayEvent::EventsEnded).unwrap_err();
    assert_eq!(e, RendezvousError::EventsEnded);
    assert_eq!(e.kind(), ErrorKind::RemoteRejection);
}

#[test]
fn unexpected_confirmation_is_protocol_violation() {
    let mut rz = Rendezvous::new();
    rz.step(Side::First, granted(ADDR_A)).unwrap();
    rz.step(Side::Second, granted(ADDR_B)).unwrap();
    // Confirmation naming an address that is not the recorded counterpart.
    let stranger = TransportAddr::V4 { ip: 0x0a0000ff, port: 1 };
    let e = rz
        .step(Side::First, RelayEvent::PermissionCreated(stranger))
        .unwrap_err();
    assert_eq!(e, RendezvousError::UnexpectedAuthorization(stranger));
    assert_eq!(e.kind(), ErrorKind::ProtocolViolation);
}

#[test]
fn confirmation_before_any_grant_is_protocol_violation() {
    let mut rz = Rendezvous::new();
    let e = rz
        .step(Side::First, RelayEvent::PermissionCreated(ADDR_B))
        .unwrap_err();
    assert_eq!(e, RendezvousError::UnexpectedAuthorization(ADDR_B));
}

#[test]
fn duplicate_grant_is_protocol_violation() {
    let mut rz = Rendezvous::new();
    rz.step(Side::First, granted(ADDR_A)).unwrap();
    let e = rz.step(Side::First, granted(ADDR_B)).unwrap_err();
    assert_eq!(e, RendezvousError::UnexpectedAllocation(ADDR_B));
    assert_eq!(e.kind(), ErrorKind::ProtocolViolation);
}

#[test]
fn irrelevant_events_are_ignored() {
    let mut rz = Rendezvous::new();
    assert_eq!(rz.step(Side::First, RelayEvent::Ignorable).unwrap(), vec![]);
    assert_eq!(
        rz.step(Side::Second, RelayEvent::RecvFrom(ADDR_A, b"noise".to_vec()))
            .unwrap(),
        vec![]
    );
    assert!(!rz.is_complete());
}
