//! Computation requests handed to the cluster's queue.
use vstd::prelude::*;

verus! {

/// One typed argument of a computation.
#[derive(Clone, Copy, Debug)]
pub enum Argument {
    PlaintextU64(u64),
    PlaintextU128(u128),
    ArcisPubkey([u8; 32]),
    EncryptedU64([u8; 32]),
}

/// An account the callback of a computation may touch.
#[derive(Clone, Copy, Debug)]
pub struct CallbackAccount {
    pub pubkey: [u8; 32],
    pub is_writable: bool,
}

/// The computations the cluster runs for this ledger.
#[derive(Clone, Copy, Debug, PartialEq, Eq, Structural)]
pub enum ComputationKind {
    Wrap,
    Transfer,
}

/// A request ready for the cluster's queue. The offset correlates it with
/// the one callback that resolves it.
#[derive(Clone, Debug)]
pub struct ComputationRequest {
    pub computation_offset: u64,
    pub kind: ComputationKind,
    pub args: Vec<Argument>,
    pub callback_accounts: Vec<CallbackAccount>,
}

/// Whether `offset` is among the offsets still in flight.
pub fn offset_in_flight(offset: u64, in_flight: &Vec<u64>) -> (r: bool)
    ensures
        r == in_flight@.contains(offset),
{
    let mut i: usize = 0;
    while i < in_flight.len()
        invariant
            i <= in_flight@.len(),
            forall|j: int| 0 <= j < i ==> in_flight@[j] != offset,
        decreases in_flight@.len() - i,
    {
        if in_flight[i] == offset {
            return true;
        }
        i = i + 1;
    }
    false
}

} // verus!
