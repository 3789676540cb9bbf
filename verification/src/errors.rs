use vstd::prelude::*;
use crate::addr::TransportAddr;

verus! {

/// The failure taxonomy: every typed failure the library reports falls under
/// exactly one of these.
#[derive(Clone, Copy, PartialEq, Eq, Structural, Debug)]
pub enum ErrorKind {
    /// A local transport endpoint could not be opened or connected.
    Transport,
    /// The relay reported something inconsistent with the recorded state.
    ProtocolViolation,
    /// The relay behaves in a way the protocol does not support.
    UnsupportedServerBehavior,
    /// The relay refused the operation or dropped the session.
    RemoteRejection,
    /// A descriptor blob could not be decoded.
    Format,
}

/// Why a descriptor blob failed to decode.
#[derive(Clone, Copy, PartialEq, Eq, Structural, Debug)]
pub enum FormatError {
    /// The text is not valid base64.
    InvalidText,
    /// The decoded bytes are not one whole zlib stream.
    CorruptCompression,
    /// The decompressed bytes are not a well-formed descriptor record.
    MalformedRecord,
}

/// Why a rendezvous run aborted. Every variant is fatal: the whole operation
/// is abandoned and nothing is rolled back.
#[derive(Clone, Copy, PartialEq, Eq, Structural, Debug)]
pub enum RendezvousError {
    /// The relay redirected the session to an alternate server.
    Redirected(TransportAddr),
    /// An allocation was granted without the mobility capability.
    MobilityNotGranted,
    /// The relay explicitly refused a peer authorization.
    AuthorizationDenied(TransportAddr),
    /// The relay dropped the session before the terminal state.
    Disconnected,
    /// A session's event sequence ended before the terminal state.
    EventsEnded,
    /// An authorization was confirmed for an address that is not the recorded
    /// counterpart relay address.
    UnexpectedAuthorization(TransportAddr),
    /// An allocation was granted to a side that already holds one.
    UnexpectedAllocation(TransportAddr),
}

impl RendezvousError {
    pub open spec fn spec_kind(&self) -> ErrorKind {
        match self {
            RendezvousError::Redirected(_) => ErrorKind::UnsupportedServerBehavior,
            RendezvousError::MobilityNotGranted => ErrorKind::UnsupportedServerBehavior,
            RendezvousError::AuthorizationDenied(_) => ErrorKind::RemoteRejection,
            RendezvousError::Disconnected => ErrorKind::RemoteRejection,
            RendezvousError::EventsEnded => ErrorKind::RemoteRejection,
            RendezvousError::UnexpectedAuthorization(_) => ErrorKind::ProtocolViolation,
            RendezvousError::UnexpectedAllocation(_) => ErrorKind::ProtocolViolation,
        }
    }

    /// Where the failure falls in the taxonomy.
    pub fn kind(&self) -> (r: ErrorKind)
        ensures
            r == self.spec_kind(),
    {
        match self {
            RendezvousError::Redirected(_) => ErrorKind::UnsupportedServerBehavior,
            RendezvousError::MobilityNotGranted => ErrorKind::UnsupportedServerBehavior,
            RendezvousError::AuthorizationDenied(_) => ErrorKind::RemoteRejection,
            RendezvousError::Disconnected => ErrorKind::RemoteRejection,
            RendezvousError::EventsEnded => ErrorKind::RemoteRejection,
            RendezvousError::UnexpectedAuthorization(_) => ErrorKind::ProtocolViolation,
            RendezvousError::UnexpectedAllocation(_) => ErrorKind::ProtocolViolation,
        }
    }
}

impl FormatError {
    pub open spec fn spec_kind(&self) -> ErrorKind {
        ErrorKind::Format
    }

    /// Where the failure falls in the taxonomy.
    pub fn kind(&self) -> (r: ErrorKind)
        ensures
            r == self.spec_kind(),
    {
        ErrorKind::Format
    }
}

} // verus!
