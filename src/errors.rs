use vstd::prelude::*;

verus! {

/// The kinds of failure that a transition or a proof check can end in.
#[derive(Clone, Copy, Debug, PartialEq, Eq, Structural)]
pub enum ProtocolError {
    /// The proof bytes could not be decoded.
    InvalidFormat,
    /// The transition does not start from the current state root.
    StateMismatch,
    /// The transition's nonce is not the successor of the current one.
    InvalidNonce,
    /// The cryptographic check of the proof failed.
    InvalidProof,
    /// The public inputs break the configured policy.
    PolicyViolation,
    /// Reserved for binding the new-state commitment to the proof.
    CommitmentMismatch,
}

/// `Ok` when a check accepted, an invalid proof otherwise.
pub open spec fn accept_or_invalid(accepted: bool) -> Result<(), ProtocolError> {
    if accepted {
        Ok(())
    } else {
        Err(ProtocolError::InvalidProof)
    }
}

impl ProtocolError {
    /// A short human-readable description of the error.
    pub fn message(&self) -> (r: &'static str)
        ensures
            *self == ProtocolError::InvalidFormat ==> r@ == "invalid message format"@,
            *self == ProtocolError::StateMismatch ==> r@ == "state mismatch"@,
            *self == ProtocolError::InvalidNonce ==> r@ == "invalid nonce"@,
            *self == ProtocolError::InvalidProof ==> r@ == "proof verification failed"@,
            *self == ProtocolError::PolicyViolation ==> r@ == "policy violation"@,
            *self == ProtocolError::CommitmentMismatch ==> r@ == "commitment mismatch"@,
    {
        match self {
            ProtocolError::InvalidFormat => "invalid message format",
            ProtocolError::StateMismatch => "state mismatch",
            ProtocolError::InvalidNonce => "invalid nonce",
            ProtocolError::InvalidProof => "proof verification failed",
            ProtocolError::PolicyViolation => "policy violation",
            ProtocolError::CommitmentMismatch => "commitment mismatch",
        }
    }
}

} // verus!
