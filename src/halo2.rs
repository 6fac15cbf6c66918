//! The circuit-SNARK backend: a proof is a halo2 transcript for the
//! inequality circuit, checked against the circuit's verifying key with the
//! threshold as the only public instance value.
use crate::errors::{accept_or_invalid, ProtocolError};
use crate::types::PublicInputs;
use halo2_proofs::pasta::EqAffine;
use halo2_proofs::plonk::VerifyingKey;
use halo2_proofs::poly::commitment::Params;
use vstd::prelude::*;

verus! {

/// The verification artifacts of the inequality circuit: the commitment
/// parameters and the verifying key, generated together for one circuit
/// shape at setup and shared read-only by every verification. Only a key
/// generated for parameters with as many rows as these is usable with them;
/// `Halo2Backend::new` refuses any other pair.
#[verifier::external_body]
pub struct Halo2Artifacts {
    pub params: Params<EqAffine>,
    pub vk: VerifyingKey<EqAffine>,
}

#[verifier::external_type_specification]
#[verifier::external_body]
pub struct ExPlonkError(halo2_proofs::plonk::Error);

/// The number of rows the commitment parameters are made for.
pub uninterp spec fn params_rows_of(artifacts: Halo2Artifacts) -> usize;

/// The number of rows of the verifying key's evaluation domain.
pub uninterp spec fn key_rows_of(artifacts: Halo2Artifacts) -> usize;

/// Whether halo2's verifier accepts `proof` for the score circuit under
/// these artifacts, with `threshold` as the public instance.
pub uninterp spec fn score_transcript_accepted(
    artifacts: Halo2Artifacts,
    threshold: u64,
    proof: Seq<u8>,
) -> bool;

/// The parameters and the key have evaluation domains of one size.
pub open spec fn artifacts_match(artifacts: Halo2Artifacts) -> bool {
    params_rows_of(artifacts) == key_rows_of(artifacts)
}

/// Relies on `Params::get_g`: the parameters hold one generator per row.
#[verifier::external_body]
fn params_rows(artifacts: &Halo2Artifacts) -> (r: usize)
    ensures
        r == params_rows_of(*artifacts),
{
    artifacts.params.get_g().len()
}

/// Relies on `VerifyingKey::get_domain` and `EvaluationDomain::empty_lagrange`:
/// the empty polynomial in Lagrange form has one value per row of the domain.
#[verifier::external_body]
fn key_rows(artifacts: &Halo2Artifacts) -> (r: usize)
    ensures
        r == key_rows_of(*artifacts),
{
    artifacts.vk.get_domain().empty_lagrange().len()
}

/// Relies on `halo2_proofs::plonk::verify_proof` with a single-proof
/// strategy and a Blake2b transcript read from `proof`: one instance column
/// holding `threshold` as a field element. The verdict depends on the
/// artifacts, the threshold and the bytes alone. `verify_proof` panics when
/// the parameters and the key differ in size (`lagrange_from_vec`); a key,
/// made only by `keygen_vk`, always has enough rows for its own size.
#[verifier::external_body]
fn verify_score_transcript(
    artifacts: &Halo2Artifacts,
    threshold: u64,
    proof: &[u8],
) -> (r: Result<(), halo2_proofs::plonk::Error>)
    requires
        artifacts_match(*artifacts),
    ensures
        r is Ok <==> score_transcript_accepted(*artifacts, threshold, proof@),
{
    let column = [halo2_proofs::pasta::Fp::from(threshold)];
    let columns: [&[halo2_proofs::pasta::Fp]; 1] = [&column];
    let mut transcript = halo2_proofs::transcript::Blake2bRead::<
        _,
        EqAffine,
        halo2_proofs::transcript::Challenge255<EqAffine>,
    >::init(proof);
    let params = &artifacts.params;
    let strategy = halo2_proofs::plonk::SingleVerifier::new(params);
    halo2_proofs::plonk::verify_proof(params, &artifacts.vk, strategy, &[&columns], &mut transcript)
}

/// A serialized circuit proof.
#[derive(Clone, Debug)]
pub struct Halo2Proof {
    pub proof_bytes: Vec<u8>,
}

/// What a circuit proof is checked against: its bytes and the public
/// threshold.
pub struct ProofInput<'a> {
    pub proof_bytes: &'a [u8],
    pub public_threshold: u64,
}

/// The circuit-SNARK backend, holding artifacts whose parameters and key
/// match in size.
pub struct Halo2Backend {
    artifacts: Halo2Artifacts,
}

/// Maps the halo2 verifier's verdict to the protocol's errors: any failure,
/// a malformed transcript or a failed algebraic check, is an invalid proof.
pub fn circuit_verdict(verdict: Result<(), halo2_proofs::plonk::Error>) -> (r: Result<
    (),
    ProtocolError,
>)
    ensures
        r == accept_or_invalid(verdict is Ok),
{
    match verdict {
        Ok(()) => Ok(()),
        Err(_) => Err(ProtocolError::InvalidProof),
    }
}

/// Checks a circuit proof against the backend's verifying key, binding it
/// to the public threshold.
pub fn verify(backend: &Halo2Backend, proof: ProofInput<'_>) -> (r: Result<(), ProtocolError>)
    ensures
        r == accept_or_invalid(
            score_transcript_accepted(
                backend.artifacts(),
                proof.public_threshold,
                proof.proof_bytes@,
            ),
        ),
{
    proof {
        use_type_invariant(backend);
    }
    let verdict = verify_score_transcript(
        &backend.artifacts,
        proof.public_threshold,
        proof.proof_bytes,
    );
    circuit_verdict(verdict)
}

impl Halo2Backend {
    #[verifier::type_invariant]
    spec fn well_formed(&self) -> bool {
        artifacts_match(self.artifacts)
    }

    /// The artifacts the backend checks proofs against.
    pub closed spec fn artifacts(&self) -> Halo2Artifacts {
        self.artifacts
    }

    /// A backend for the given artifacts; `None` when the parameters and
    /// the key were made for different circuit sizes, a setup error.
    pub fn new(artifacts: Halo2Artifacts) -> (r: Option<Halo2Backend>)
        ensures
            r is Some <==> artifacts_match(artifacts),
            r matches Some(b) ==> b.artifacts() == artifacts,
    {
        if params_rows(&artifacts) != key_rows(&artifacts) {
            return None;
        }
        Some(Halo2Backend { artifacts })
    }

    /// Checks a circuit proof; of the public inputs only the threshold is
    /// an instance value of the circuit.
    pub fn verify(&self, proof_bytes: &[u8], public_inputs: &PublicInputs) -> (r: Result<
        (),
        ProtocolError,
    >)
        ensures
            r == accept_or_invalid(
                score_transcript_accepted(self.artifacts(), public_inputs.threshold, proof_bytes@),
            ),
    {
        verify(self, ProofInput { proof_bytes, public_threshold: public_inputs.threshold })
    }
}

} // verus!
