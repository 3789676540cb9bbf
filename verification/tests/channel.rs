use turntie::addr::TransportAddr;
use turntie::channel::{Channel, InboundDecision};
use turntie::descriptor::{Data, SessionSnapshot};
use turntie::rendezvous::{RelayCommand, RelayEvent, Rendezvous, Side};

const ADDR_A: TransportAddr = TransportAddr::V4 { ip: 0x0a000001, port: 40001 };
const ADDR_B: TransportAddr = TransportAddr::V4 { ip: 0x0a000002, port: 40002 };
const STRANGER: TransportAddr = TransportAddr::V4 { ip: 0x0a0000ff, port: 4999 };

fn descriptor_with_counterpart(counterpart: TransportAddr) -> Data {
    Data::new(
        TransportAddr::V4 { ip: 0x7f000001, port: 3478 },
        b"user".to_vec(),
        b"pass".to_vec(),
        SessionSnapshot {
            realm: b"realm".to_vec(),
            nonce: b"nonce".to_vec(),
            mobility_ticket: vec![1, 2, 3, 4],
        },
        counterpart,
    )
}

#[test]
fn resumption_preseeds_counterpart_authorization() {
    let d = descriptor_with_counterpart(ADDR_B);
    let (ch, params) = Channel::from_descriptor(d);
    // The one pre-seeded authorized peer is the counterpart: a send works
    // immediately, with no preceding authorization call.
    assert_eq!(params.permissions, vec![ADDR_B]);
    assert_eq!(params.realm, b"realm".to_vec());
    assert_eq!(params.nonce, b"nonce".to_vec());
    assert_eq!(params.mobility_ticket, vec![1, 2, 3, 4]);
    let cmd = ch.outbound(b"hello".to_vec());
    assert_eq!(cmd, RelayCommand::SendTo(ADDR_B, b"hello".to_vec()));
}

#[test]
fn inbound_filter_keeps_only_counterpart() {
    let d = descriptor_with_counterpart(ADDR_A);
    let (ch, _) = Channel::from_descriptor(d);
    let events = vec![
        RelayEvent::RecvFrom(STRANGER, b"spoof".to_vec()),
        RelayEvent::RecvFrom(ADDR_A, b"one".to_vec()),
        RelayEvent::Ignorable,
        RelayEvent::RecvFrom(ADDR_A, b"two".to_vec()),
        RelayEvent::RecvFrom(STRANGER, b"more noise".to_vec()),
        RelayEvent::PermissionCreated(ADDR_A),
        RelayEvent::RecvFrom(ADDR_A, b"three".to_vec()),
    ];
    let delivered = ch.drain_inbound(events);
    assert_eq!(delivered, vec![b"one".to_vec(), b"two".to_vec(), b"three".to_vec()]);
}

#[test]
fn classify_decisions() {
    let d = descriptor_with_counterpart(ADDR_A);
    let (ch, _) = Channel::from_descriptor(d);
    assert_eq!(
        ch.classify_inbound(RelayEvent::RecvFrom(ADDR_A, b"x".to_vec())),
        InboundDecision::Deliver(b"x".to_vec())
    );
    assert_eq!(
        ch.classify_inbound(RelayEvent::RecvFrom(STRANGER, b"x".to_vec())),
        InboundDecision::Skip
    );
    assert_eq!(ch.classify_inbound(RelayEvent::Disconnected), InboundDecision::Skip);
    assert_eq!(ch.classify_inbound(RelayEvent::Ignorable), InboundDecision::Skip);
}

/// The end-to-end scenario against a scripted relay: rendezvous with mobility
/// granted and addresses A and B, both cross-authorizations accepted and
/// confirmed, then the A-side endpoint sends "ping" and "pong" and the B-side
/// endpoint receives exactly those, in order.
#[test]
fn end_to_end_tie_and_exchange() {
    // Rendezvous: the mock relay grants A to the first session, B to the
    // second, both with mobility.
    let mut rz = Rendezvous::new();
    let mut issued: Vec<(Side, RelayCommand)> = Vec::new();
    issued.extend(
        rz.step(
            Side::First,
            RelayEvent::AllocationGranted { relay_address: ADDR_A, mobility: true },
        )
        .unwrap(),
    );
    issued.extend(
        rz.step(
            Side::Second,
            RelayEvent::AllocationGranted { relay_address: ADDR_B, mobility: true },
        )
        .unwrap(),
    );
    // The mock relay accepts exactly the two cross-authorizations.
    assert_eq!(
        issued,
        vec![
            (Side::First, RelayCommand::AddPermission(ADDR_B)),
            (Side::Second, RelayCommand::AddPermission(ADDR_A)),
        ]
    );
    // ... and confirms both.
    issued.extend(rz.step(Side::First, RelayEvent::PermissionCreated(ADDR_B)).unwrap());
    issued.extend(rz.step(Side::Second, RelayEvent::PermissionCreated(ADDR_A)).unwrap());
    assert!(rz.is_complete());
    // No further directive was issued: the side effect happened exactly once.
    assert_eq!(issued.len(), 2);

    // Descriptors travel out of band; each side resumes its own.
    let (d1, d2) = rz.make_descriptors(
        TransportAddr::V4 { ip: 0x7f000001, port: 3478 },
        b"user".to_vec(),
        b"pass".to_vec(),
        SessionSnapshot {
            realm: b"realm".to_vec(),
            nonce: b"n1".to_vec(),
            mobility_ticket: vec![1],
        },
        SessionSnapshot {
            realm: b"realm".to_vec(),
            nonce: b"n2".to_vec(),
            mobility_ticket: vec![2],
        },
    );
    let blob1 = d1.serialize();
    let blob2 = d2.serialize();
    let d1 = Data::deserialize(&blob1).unwrap();
    let d2 = Data::deserialize(&blob2).unwrap();

    let (side_a, params_a) = Channel::from_descriptor(d1);
    let (side_b, params_b) = Channel::from_descriptor(d2);
    // Each resumed session pre-seeds the other side's relay address.
    assert_eq!(params_a.permissions, vec![ADDR_B]);
    assert_eq!(params_b.permissions, vec![ADDR_A]);

    // The A-side endpoint sends "ping" then "pong": one payload, one datagram.
    let ping = side_a.outbound(b"ping".to_vec());
    let pong = side_a.outbound(b"pong".to_vec());
    assert_eq!(ping, RelayCommand::SendTo(ADDR_B, b"ping".to_vec()));
    assert_eq!(pong, RelayCommand::SendTo(ADDR_B, b"pong".to_vec()));

    // The mock relay forwards them to the B-side endpoint, which sees them
    // arrive from A — mixed with unrelated traffic — and yields each exactly
    // once, in order.
    let delivered = side_b.drain_inbound(vec![
        RelayEvent::Ignorable,
        RelayEvent::RecvFrom(ADDR_A, b"ping".to_vec()),
        RelayEvent::RecvFrom(STRANGER, b"intruder".to_vec()),
        RelayEvent::RecvFrom(ADDR_A, b"pong".to_vec()),
    ]);
    assert_eq!(delivered, vec![b"ping".to_vec(), b"pong".to_vec()]);
}
