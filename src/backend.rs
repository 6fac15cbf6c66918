//! The proof backends behind one verification interface.
use crate::errors::{accept_or_invalid, ProtocolError};
use crate::halo2::{score_transcript_accepted, Halo2Backend};
use crate::types::PublicInputs;
use crate::zkvm::ZkVmBackend;
use vstd::prelude::*;

verus! {

/// A backend that accepts every proof, for measuring the engine alone.
#[derive(Clone, Copy, Debug)]
pub struct BenchHalo2Backend;

impl BenchHalo2Backend {
    /// Accepts any proof.
    pub fn verify(&self, proof_bytes: &[u8], public_inputs: &PublicInputs) -> (r: Result<
        (),
        ProtocolError,
    >)
        ensures
            r == Ok::<(), ProtocolError>(()),
    {
        Ok(())
    }
}

/// The execution backend under the name the benchmarks use.
pub type BenchZkVmBackend = ZkVmBackend;

/// The configured proof system.
pub enum ProofBackend {
    /// Circuit proofs checked against a verifying key.
    Circuit(Halo2Backend),
    /// Execution receipts checked against a program identity.
    Execution(ZkVmBackend),
    /// Accepts every proof.
    Stub(BenchHalo2Backend),
}

impl ProofBackend {
    /// What this backend answers for `proof` and `inputs`: the halo2
    /// verifier's verdict, the receipt check, or acceptance.
    pub open spec fn verdict(&self, proof: Seq<u8>, inputs: PublicInputs) -> Result<
        (),
        ProtocolError,
    > {
        match self {
            ProofBackend::Circuit(b) => accept_or_invalid(
                score_transcript_accepted(b.artifacts(), inputs.threshold, proof),
            ),
            ProofBackend::Execution(b) => accept_or_invalid(b.accepts(proof, inputs)),
            ProofBackend::Stub(_) => Ok(()),
        }
    }

    /// Verifies a proof against the public inputs with the configured
    /// backend.
    pub fn verify(&self, proof_bytes: &[u8], public_inputs: &PublicInputs) -> (r: Result<
        (),
        ProtocolError,
    >)
        ensures
            r == self.verdict(proof_bytes@, *public_inputs),
    {
        match self {
            ProofBackend::Circuit(b) => b.verify(proof_bytes, public_inputs),
            ProofBackend::Execution(b) => b.verify(proof_bytes, public_inputs),
            ProofBackend::Stub(b) => b.verify(proof_bytes, public_inputs),
        }
    }
}

} // verus!
