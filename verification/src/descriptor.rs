use vstd::prelude::*;
use crate::addr::TransportAddr;

verus! {

/// The state a relay session exports so that the allocation can be resumed
/// elsewhere: realm, nonce and the opaque mobility ticket. Text fields are
/// carried as their bytes; the library never interprets them.
pub struct SessionSnapshot {
    pub realm: Vec<u8>,
    pub nonce: Vec<u8>,
    pub mobility_ticket: Vec<u8>,
}

/// One side's portable endpoint descriptor: everything needed to resume that
/// side's relay allocation from a new local transport endpoint, plus the fixed
/// counterpart address the resumed channel is bound to.
#[derive(Debug)]
pub struct Data {
    pub turn_server: TransportAddr,
    pub username: Vec<u8>,
    pub password: Vec<u8>,
    pub realm: Vec<u8>,
    pub nonce: Vec<u8>,
    pub mobility_ticket: Vec<u8>,
    pub counterpart: TransportAddr,
}

/// The mathematical value of a descriptor: addresses as they are, byte fields
/// as sequences.
#[verifier::ext_equal]
pub ghost struct DataView {
    pub turn_server: TransportAddr,
    pub username: Seq<u8>,
    pub password: Seq<u8>,
    pub realm: Seq<u8>,
    pub nonce: Seq<u8>,
    pub mobility_ticket: Seq<u8>,
    pub counterpart: TransportAddr,
}

impl View for Data {
    type V = DataView;

    open spec fn view(&self) -> DataView {
        DataView {
            turn_server: self.turn_server,
            username: self.username@,
            password: self.password@,
            realm: self.realm@,
            nonce: self.nonce@,
            mobility_ticket: self.mobility_ticket@,
            counterpart: self.counterpart,
        }
    }
}

impl Data {
    /// Builds the descriptor for one side out of the relay server address, the
    /// credentials, that side's exported session state, and the other side's
    /// relay address.
    pub fn new(
        turn_server: TransportAddr,
        username: Vec<u8>,
        password: Vec<u8>,
        state: SessionSnapshot,
        counterpart: TransportAddr,
    ) -> (r: Data)
        ensures
            r@ == (DataView {
                turn_server,
                username: username@,
                password: password@,
                realm: state.realm@,
                nonce: state.nonce@,
                mobility_ticket: state.mobility_ticket@,
                counterpart,
            }),
    {
        Data {
            turn_server,
            username,
            password,
            realm: state.realm,
            nonce: state.nonce,
            mobility_ticket: state.mobility_ticket,
            counterpart,
        }
    }
}

} // verus!
