use vstd::prelude::*;

verus! {

/// Why an instruction or a callback was refused.
///
/// Insufficient funds is not among them: a transfer that the cluster
/// declines is a normal completion.
#[derive(Clone, Copy, Debug, PartialEq, Eq, Structural)]
pub enum ErrorCode {
    /// Bad caller input, rejected before anything is queued.
    InvalidArgument,
    /// The computation offset is already in flight.
    DuplicateOffset,
    /// The cluster could not take the request; nothing was queued.
    DispatchError,
    /// The cluster reported that the computation was aborted.
    AbortedComputation,
    /// The callback payload does not have the expected layout.
    MalformedCallback,
    /// A settlement would replace the record's encryption public key.
    PubkeyMismatch,
    /// A settlement would change a record's ciphertext but keep its nonce.
    StaleNonce,
}

} // verus!
