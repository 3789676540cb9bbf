//! Tie two ends of an unreliable datagram channel through a TURN-style relay.
//!
//! The library holds the verified core of the protocol: the portable endpoint
//! descriptor and its reversible text encoding, the rendezvous state machine
//! that drives two relay sessions to mutual readiness, and the
//! counterpart-filtered channel adapter. Network I/O and the async plumbing
//! around the relay client live outside the library.

pub mod addr;
pub mod channel;
pub mod codec;
pub mod descriptor;
pub mod errors;
pub mod rendezvous;
pub mod wire;

pub use addr::TransportAddr;
