use vstd::prelude::*;
use crate::addr::TransportAddr;
use crate::descriptor::{Data, DataView, SessionSnapshot};
use crate::errors::RendezvousError;

verus! {

/// Which of the two tied sessions an event came from or a directive goes to.
#[derive(Clone, Copy, PartialEq, Eq, Structural, Debug)]
pub enum Side {
    First,
    Second,
}

/// One relay-session event, reduced to what the protocol reads.
#[derive(PartialEq, Eq, Debug)]
pub enum RelayEvent {
    /// The relay granted this session's allocation.
    AllocationGranted { relay_address: TransportAddr, mobility: bool },
    /// The relay redirects the session to an alternate server.
    RedirectedToAlternateServer(TransportAddr),
    /// The relay confirmed a peer authorization for this address.
    PermissionCreated(TransportAddr),
    /// The relay refused a peer authorization for this address.
    PermissionNotCreated(TransportAddr),
    /// The relay dropped the session.
    Disconnected,
    /// A datagram arrived from this origin address.
    RecvFrom(TransportAddr, Vec<u8>),
    /// Anything else the relay reports; the protocol ignores it.
    Ignorable,
    /// The session's event sequence ended.
    EventsEnded,
}

/// One directive to a relay session.
#[derive(PartialEq, Eq, Debug)]
pub enum RelayCommand {
    /// Authorize this peer address to exchange datagrams with the allocation.
    AddPermission(TransportAddr),
    /// Forward this payload to this peer.
    SendTo(TransportAddr, Vec<u8>),
}

/// The coordinator's state: each side's granted relay address and
/// confirmation, plus the shared one-shot flag that guards the
/// cross-authorization step. Each side walks
/// awaiting-allocation → allocation-granted → authorization-requested →
/// authorization-confirmed; the flag flips exactly when the second address
/// becomes known.
#[derive(Clone, Copy, Debug)]
pub struct Rendezvous {
    pub addr_first: Option<TransportAddr>,
    pub addr_second: Option<TransportAddr>,
    pub confirmed_first: bool,
    pub confirmed_second: bool,
    pub cross_authorized: bool,
}

pub open spec fn addr_of(s: Rendezvous, side: Side) -> Option<TransportAddr> {
    match side {
        Side::First => s.addr_first,
        Side::Second => s.addr_second,
    }
}

pub open spec fn other_addr_of(s: Rendezvous, side: Side) -> Option<TransportAddr> {
    match side {
        Side::First => s.addr_second,
        Side::Second => s.addr_first,
    }
}

pub open spec fn confirmed_of(s: Rendezvous, side: Side) -> bool {
    match side {
        Side::First => s.confirmed_first,
        Side::Second => s.confirmed_second,
    }
}

/// One side's progress through the per-side state machine.
#[derive(Clone, Copy, PartialEq, Eq, Structural, Debug)]
pub enum Phase {
    AwaitingAllocation,
    AllocationGranted,
    AuthorizationRequested,
    AuthorizationConfirmed,
}

/// Where one side stands: its authorization confirmed; else requested, once
/// the shared flag has flipped; else its allocation granted; else still
/// awaited.
pub open spec fn phase_of(s: Rendezvous, side: Side) -> Phase {
    if confirmed_of(s, side) {
        Phase::AuthorizationConfirmed
    } else if s.cross_authorized {
        Phase::AuthorizationRequested
    } else if addr_of(s, side) is Some {
        Phase::AllocationGranted
    } else {
        Phase::AwaitingAllocation
    }
}

pub open spec fn phase_index(p: Phase) -> int {
    match p {
        Phase::AwaitingAllocation => 0,
        Phase::AllocationGranted => 1,
        Phase::AuthorizationRequested => 2,
        Phase::AuthorizationConfirmed => 3,
    }
}

pub open spec fn with_addr(s: Rendezvous, side: Side, a: TransportAddr) -> Rendezvous {
    match side {
        Side::First => Rendezvous { addr_first: Some(a), ..s },
        Side::Second => Rendezvous { addr_second: Some(a), ..s },
    }
}

pub open spec fn with_confirmed(s: Rendezvous, side: Side) -> Rendezvous {
    match side {
        Side::First => Rendezvous { confirmed_first: true, ..s },
        Side::Second => Rendezvous { confirmed_second: true, ..s },
    }
}

/// The transition function of the coordinator: what one event from one side
/// does to the state, which directives it triggers, or the fatal error it
/// raises. The cross-authorization directives — each side authorizing the
/// *other* side's relay address — are triggered in the single step in which
/// the second relay address becomes known, and in no other.
pub open spec fn spec_step(s: Rendezvous, side: Side, ev: RelayEvent) -> Result<
    (Rendezvous, Seq<(Side, RelayCommand)>),
    RendezvousError,
> {
    match ev {
        RelayEvent::AllocationGranted { relay_address, mobility } => {
            if !mobility {
                Err(RendezvousError::MobilityNotGranted)
            } else if addr_of(s, side) is Some {
                Err(RendezvousError::UnexpectedAllocation(relay_address))
            } else {
                let s1 = with_addr(s, side, relay_address);
                if s1.addr_first is Some && s1.addr_second is Some && !s1.cross_authorized {
                    Ok(
                        (
                            Rendezvous { cross_authorized: true, ..s1 },
                            seq![
                                (
                                    Side::First,
                                    RelayCommand::AddPermission(s1.addr_second.unwrap()),
                                ),
                                (
                                    Side::Second,
                                    RelayCommand::AddPermission(s1.addr_first.unwrap()),
                                ),
                            ],
                        ),
                    )
                } else {
                    Ok((s1, Seq::empty()))
                }
            }
        },
        RelayEvent::RedirectedToAlternateServer(a) => Err(RendezvousError::Redirected(a)),
        RelayEvent::PermissionCreated(a) => {
            if other_addr_of(s, side) == Some(a) {
                Ok((with_confirmed(s, side), Seq::empty()))
            } else {
                Err(RendezvousError::UnexpectedAuthorization(a))
            }
        },
        RelayEvent::PermissionNotCreated(a) => Err(RendezvousError::AuthorizationDenied(a)),
        RelayEvent::Disconnected => Err(RendezvousError::Disconnected),
        RelayEvent::EventsEnded => Err(RendezvousError::EventsEnded),
        RelayEvent::RecvFrom(_, _) => Ok((s, Seq::empty())),
        RelayEvent::Ignorable => Ok((s, Seq::empty())),
    }
}

fn no_commands() -> (r: Vec<(Side, RelayCommand)>)
    ensures
        r@ == Seq::<(Side, RelayCommand)>::empty(),
{
    let r: Vec<(Side, RelayCommand)> = Vec::new();
    assert(r@ =~= Seq::<(Side, RelayCommand)>::empty());
    r
}

impl Rendezvous {
    /// The fresh coordinator state: no address known, nothing confirmed, the
    /// one-shot flag clear.
    pub open spec fn init() -> Rendezvous {
        Rendezvous {
            addr_first: None,
            addr_second: None,
            confirmed_first: false,
            confirmed_second: false,
            cross_authorized: false,
        }
    }

    pub fn new() -> (r: Rendezvous)
        ensures
            r == Rendezvous::init(),
    {
        Rendezvous {
            addr_first: None,
            addr_second: None,
            confirmed_first: false,
            confirmed_second: false,
            cross_authorized: false,
        }
    }

    /// Terminal success: both sides' authorizations confirmed. No other
    /// terminal success state exists.
    pub open spec fn complete(self) -> bool {
        self.confirmed_first && self.confirmed_second
    }

    pub fn is_complete(&self) -> (r: bool)
        ensures
            r == self.complete(),
    {
        self.confirmed_first && self.confirmed_second
    }

    /// Feeds one relay event from one side through the coordinator. Returns
    /// the directives to issue now (each to its named side), or the fatal
    /// error that aborts the whole rendezvous; on an error the state is left
    /// as it was.
    pub fn step(&mut self, side: Side, ev: RelayEvent) -> (r: Result<
        Vec<(Side, RelayCommand)>,
        RendezvousError,
    >)
        ensures
            match r {
                Ok(cmds) => spec_step(*old(self), side, ev) == Ok::<
                    (Rendezvous, Seq<(Side, RelayCommand)>),
                    RendezvousError,
                >((*final(self), cmds@)),
                Err(e) => spec_step(*old(self), side, ev) == Err::<
                    (Rendezvous, Seq<(Side, RelayCommand)>),
                    RendezvousError,
                >(e) && *final(self) == *old(self),
            },
    {
        match ev {
            RelayEvent::AllocationGranted { relay_address, mobility } => {
                if !mobility {
                    return Err(RendezvousError::MobilityNotGranted);
                }
                let already = match side {
                    Side::First => self.addr_first.is_some(),
                    Side::Second => self.addr_second.is_some(),
                };
                if already {
                    return Err(RendezvousError::UnexpectedAllocation(relay_address));
                }
                match side {
                    Side::First => {
                        self.addr_first = Some(relay_address);
                    },
                    Side::Second => {
                        self.addr_second = Some(relay_address);
                    },
                }
                let mut cmds: Vec<(Side, RelayCommand)> = Vec::new();
                if self.addr_first.is_some() && self.addr_second.is_some()
                    && !self.cross_authorized {
                    self.cross_authorized = true;
                    let a1 = self.addr_first.unwrap();
                    let a2 = self.addr_second.unwrap();
                    cmds.push((Side::First, RelayCommand::AddPermission(a2)));
                    cmds.push((Side::Second, RelayCommand::AddPermission(a1)));
                    assert(cmds@ =~= seq![
                        (Side::First, RelayCommand::AddPermission(a2)),
                        (Side::Second, RelayCommand::AddPermission(a1)),
                    ]);
                } else {
                    assert(cmds@ =~= Seq::<(Side, RelayCommand)>::empty());
                }
                Ok(cmds)
            },
            RelayEvent::RedirectedToAlternateServer(a) => Err(RendezvousError::Redirected(a)),
            RelayEvent::PermissionCreated(a) => {
                let other = match side {
                    Side::First => &self.addr_second,
                    Side::Second => &self.addr_first,
                };
                let matches_other = match other {
                    Some(b) => *b == a,
                    None => false,
                };
                if matches_other {
                    match side {
                        Side::First => {
                            self.confirmed_first = true;
                        },
                        Side::Second => {
                            self.confirmed_second = true;
                        },
                    }
                    Ok(no_commands())
                } else {
                    Err(RendezvousError::UnexpectedAuthorization(a))
                }
            },
            RelayEvent::PermissionNotCreated(a) => Err(RendezvousError::AuthorizationDenied(a)),
            RelayEvent::Disconnected => Err(RendezvousError::Disconnected),
            RelayEvent::EventsEnded => Err(RendezvousError::EventsEnded),
            RelayEvent::RecvFrom(_, _) => Ok(no_commands()),
            RelayEvent::Ignorable => Ok(no_commands()),
        }
    }

    /// Builds the two descriptors of a completed rendezvous. Each carries the
    /// relay server address, the shared credentials and its own side's
    /// exported session state, and names the *other* side's relay address as
    /// its counterpart — the symmetry that ties the two endpoints together.
    pub fn make_descriptors(
        &self,
        turn_server: TransportAddr,
        username: Vec<u8>,
        password: Vec<u8>,
        snapshot_first: SessionSnapshot,
        snapshot_second: SessionSnapshot,
    ) -> (r: (Data, Data))
        requires
            self.complete(),
            self.addr_first is Some,
            self.addr_second is Some,
        ensures
            r.0@ == (DataView {
                turn_server,
                username: username@,
                password: password@,
                realm: snapshot_first.realm@,
                nonce: snapshot_first.nonce@,
                mobility_ticket: snapshot_first.mobility_ticket@,
                counterpart: self.addr_second.unwrap(),
            }),
            r.1@ == (DataView {
                turn_server,
                username: username@,
                password: password@,
                realm: snapshot_second.realm@,
                nonce: snapshot_second.nonce@,
                mobility_ticket: snapshot_second.mobility_ticket@,
                counterpart: self.addr_first.unwrap(),
            }),
            r.0@.counterpart == self.addr_second.unwrap(),
            r.1@.counterpart == self.addr_first.unwrap(),
    {
        let a1 = self.addr_first.unwrap();
        let a2 = self.addr_second.unwrap();
        let username2 = crate::wire::read_bytes(&username, 0, username.len());
        let password2 = crate::wire::read_bytes(&password, 0, password.len());
        proof {
            assert(username2@ =~= username@);
            assert(password2@ =~= password@);
        }
        let d1 = Data::new(turn_server, username, password, snapshot_first, a2);
        let d2 = Data::new(turn_server, username2, password2, snapshot_second, a1);
        (d1, d2)
    }
}

// ---------------------------------------------------------------------------
// The coordination laws: what any interleaving of the two sides' events does.
// ---------------------------------------------------------------------------

/// Folding a whole interleaving of events through the coordinator,
/// accumulating every directive it issues along the way.
pub open spec fn run(s: Rendezvous, evs: Seq<(Side, RelayEvent)>) -> Result<
    (Rendezvous, Seq<(Side, RelayCommand)>),
    RendezvousError,
>
    decreases evs.len(),
{
    if evs.len() == 0 {
        Ok((s, Seq::empty()))
    } else {
        match spec_step(s, evs[0].0, evs[0].1) {
            Ok((s1, cmds)) => match run(s1, evs.skip(1)) {
                Ok((s2, rest)) => Ok((s2, cmds + rest)),
                Err(e) => Err(e),
            },
            Err(e) => Err(e),
        }
    }
}

/// The coordinator's invariant: the one-shot flag is set exactly when both
/// relay addresses are known, and a side is confirmed only against a known
/// counterpart address.
pub open spec fn inv(s: Rendezvous) -> bool {
    &&& s.cross_authorized <==> (s.addr_first is Some && s.addr_second is Some)
    &&& s.confirmed_first ==> s.addr_second is Some
    &&& s.confirmed_second ==> s.addr_first is Some
}

/// The directives a state accounts for: none before the one-shot flag flips,
/// and from then on exactly the two cross-authorizations.
pub open spec fn issued_commands(s: Rendezvous) -> Seq<(Side, RelayCommand)> {
    if s.cross_authorized {
        seq![
            (Side::First, RelayCommand::AddPermission(s.addr_second.unwrap())),
            (Side::Second, RelayCommand::AddPermission(s.addr_first.unwrap())),
        ]
    } else {
        Seq::empty()
    }
}

/// One step preserves the invariant, never unsets an address, a confirmation
/// or the flag, and issues exactly the directives that the flag's flip
/// accounts for.
pub proof fn lemma_step_preserves(s: Rendezvous, side: Side, ev: RelayEvent)
    requires
        inv(s),
    ensures
        match spec_step(s, side, ev) {
            Ok((s1, cmds)) => inv(s1) && issued_commands(s1) =~= issued_commands(s) + cmds && (
            s.addr_first is Some ==> s1.addr_first == s.addr_first) && (s.addr_second is Some
                ==> s1.addr_second == s.addr_second) && (s.cross_authorized
                ==> s1.cross_authorized),
            Err(_) => true,
        },
{
}

/// Each side's state machine only moves forward, whichever side the event
/// belongs to: awaiting-allocation → allocation-granted →
/// authorization-requested → authorization-confirmed, never back.
pub proof fn lemma_phase_monotone(s: Rendezvous, side: Side, ev: RelayEvent, observed: Side)
    requires
        inv(s),
    ensures
        match spec_step(s, side, ev) {
            Ok((s1, _)) => phase_index(phase_of(s, observed)) <= phase_index(
                phase_of(s1, observed),
            ),
            Err(_) => true,
        },
{
}

/// Terminal success is both sides standing at authorization-confirmed, and
/// nothing else.
pub proof fn lemma_terminal_success(s: Rendezvous)
    ensures
        s.complete() <==> (phase_of(s, Side::First) == Phase::AuthorizationConfirmed && phase_of(
            s,
            Side::Second,
        ) == Phase::AuthorizationConfirmed),
{
}

/// Exactly-once, order-independent cross-authorization: whatever interleaving
/// of the two sides' events a run from the fresh state consumes, once the
/// one-shot flag has flipped the directives issued so far are exactly one
/// authorization per side, each naming the other side's granted relay
/// address — and before the flip, none at all. A completed rendezvous has the
/// flag flipped, so a successful run issues the pair exactly once.
pub proof fn lemma_exactly_once_cross_authorization(s: Rendezvous, evs: Seq<(Side, RelayEvent)>)
    requires
        inv(s),
    ensures
        match run(s, evs) {
            Ok((s2, cmds)) => inv(s2) && issued_commands(s2) =~= issued_commands(s) + cmds && (
            s2.complete() ==> s2.cross_authorized),
            Err(_) => true,
        },
    decreases evs.len(),
{
    if evs.len() == 0 {
        assert(match run(s, evs) {
            Ok((s2, cmds)) => issued_commands(s2) =~= issued_commands(s) + cmds,
            Err(_) => true,
        });
    } else {
        lemma_step_preserves(s, evs[0].0, evs[0].1);
        match spec_step(s, evs[0].0, evs[0].1) {
            Ok((s1, cmds)) => {
                lemma_exactly_once_cross_authorization(s1, evs.skip(1));
                match run(s1, evs.skip(1)) {
                    Ok((s2, rest)) => {
                        assert(issued_commands(s2) =~= issued_commands(s) + (cmds + rest));
                    },
                    Err(_) => {},
                }
            },
            Err(_) => {},
        }
    }
}

} // verus!
