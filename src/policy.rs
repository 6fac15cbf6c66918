//! The policy predicate, evaluated over the public inputs once the proof
//! has been checked.
use crate::errors::ProtocolError;
use crate::types::PublicInputs;
use vstd::prelude::*;

verus! {

/// A policy on public inputs: the largest threshold a transition may claim.
#[derive(Clone, Copy, Debug, PartialEq, Eq, Structural)]
pub struct Policy {
    pub max_threshold: u64,
}

impl Policy {
    /// The inputs satisfy the policy.
    pub open spec fn allows(&self, inputs: PublicInputs) -> bool {
        inputs.threshold <= self.max_threshold
    }

    /// The policy that allows every input.
    pub fn permissive() -> (r: Policy)
        ensures
            forall|inputs: PublicInputs| r.allows(inputs),
    {
        Policy { max_threshold: u64::MAX }
    }

    /// A policy that allows thresholds up to `max_threshold`.
    pub fn new(max_threshold: u64) -> (r: Policy)
        ensures
            r.max_threshold == max_threshold,
    {
        Policy { max_threshold }
    }

    /// Checks the inputs against the policy.
    pub fn enforce(&self, public_inputs: &PublicInputs) -> (r: Result<(), ProtocolError>)
        ensures
            r is Ok <==> self.allows(*public_inputs),
            r matches Err(e) ==> e == ProtocolError::PolicyViolation,
    {
        if public_inputs.threshold <= self.max_threshold {
            Ok(())
        } else {
            Err(ProtocolError::PolicyViolation)
        }
    }
}

} // verus!
