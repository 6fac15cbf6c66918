use halo2_proofs::arithmetic::Field;
use halo2_proofs::circuit::{Layouter, SimpleFloorPlanner, Value};
use halo2_proofs::dev::MockProver;
use halo2_proofs::pasta::{EqAffine, Fp};
use halo2_proofs::plonk::{
    create_proof, keygen_pk, keygen_vk, Advice, Circuit, Column, ConstraintSystem, Error,
    Expression, Instance, Selector,
};
use halo2_proofs::poly::commitment::Params;
use halo2_proofs::poly::Rotation;
use halo2_proofs::transcript::{Blake2bWrite, Challenge255};
use rand::rngs::OsRng;
use zkcg::backend::ProofBackend;
use zkcg::circuit::{decompose_bits, DIFF_BITS};
use zkcg::errors::ProtocolError;
use zkcg::halo2::{verify, Halo2Artifacts, Halo2Backend, ProofInput};
use zkcg::types::PublicInputs;
use zkcg::zkvm::{prove as zkvm_prove, ZkVmBackend};

const K: u32 = 9;

#[derive(Clone)]
struct ScoreCircuit {
    score: Value<u64>,
    threshold: Value<u64>,
}

#[derive(Clone)]
struct ScoreConfig {
    score: Column<Advice>,
    diff: Column<Advice>,
    bits: Vec<Column<Advice>>,
    threshold_advice: Column<Advice>,
    threshold: Column<Instance>,
    selector: Selector,
}

impl Circuit<Fp> for ScoreCircuit {
    type Config = ScoreConfig;
    type FloorPlanner = SimpleFloorPlanner;

    fn without_witnesses(&self) -> Self {
        ScoreCircuit { score: Value::unknown(), threshold: Value::unknown() }
    }

    fn configure(cs: &mut ConstraintSystem<Fp>) -> ScoreConfig {
        let score = cs.advice_column();
        let diff = cs.advice_column();
        let threshold_advice = cs.advice_column();
        let threshold = cs.instance_column();
        let selector = cs.selector();
        let bits: Vec<Column<Advice>> = (0..DIFF_BITS).map(|_| cs.advice_column()).collect();
        cs.enable_equality(threshold_advice);
        cs.enable_equality(threshold);

        let gate_bits = bits.clone();
        cs.create_gate("score <= threshold", |meta| {
            let s = meta.query_selector(selector);
            let score = meta.query_advice(score, Rotation::cur());
            let diff = meta.query_advice(diff, Rotation::cur());
            let t = meta.query_advice(threshold_advice, Rotation::cur());
            let mut constraints = vec![s.clone() * (t - score - diff.clone())];
            let mut sum = Expression::Constant(Fp::ZERO);
            for (i, col) in gate_bits.iter().enumerate() {
                let b = meta.query_advice(*col, Rotation::cur());
                constraints
                    .push(s.clone() * b.clone() * (Expression::Constant(Fp::ONE) - b.clone()));
                sum = sum + b * Expression::Constant(Fp::from(1u64 << i));
            }
            constraints.push(s * (diff - sum));
            constraints
        });

        ScoreConfig { score, diff, bits, threshold_advice, threshold, selector }
    }

    fn synthesize(&self, config: ScoreConfig, mut layouter: impl Layouter<Fp>) -> Result<(), Error> {
        let cell = layouter.assign_region(
            || "score <= threshold",
            |mut region| {
                config.selector.enable(&mut region, 0)?;
                region.assign_advice(|| "score", config.score, 0, || self.score.map(Fp::from))?;
                let pair = self.threshold.zip(self.score);
                let diff = pair.map(|(t, s)| Fp::from(t) - Fp::from(s));
                region.assign_advice(|| "diff", config.diff, 0, || diff)?;
                let bits = pair.map(|(t, s)| decompose_bits(t.wrapping_sub(s)));
                for (i, col) in config.bits.iter().enumerate() {
                    let bit = bits.as_ref().map(|b| if b[i] { Fp::ONE } else { Fp::ZERO });
                    region.assign_advice(|| "diff bit", *col, 0, || bit)?;
                }
                region.assign_advice(
                    || "threshold",
                    config.threshold_advice,
                    0,
                    || self.threshold.map(Fp::from),
                )
            },
        )?;
        layouter.constrain_instance(cell.cell(), config.threshold, 0)
    }
}

fn empty_circuit() -> ScoreCircuit {
    ScoreCircuit { score: Value::unknown(), threshold: Value::unknown() }
}

fn generate_valid_proof_with_params(score: u64, threshold: u64, params: &Params<EqAffine>) -> Vec<u8> {
    let vk = keygen_vk(params, &empty_circuit()).unwrap();
    let pk = keygen_pk(params, vk, &empty_circuit()).unwrap();
    let circuit = ScoreCircuit { score: Value::known(score), threshold: Value::known(threshold) };
    let instance = [Fp::from(threshold)];
    let columns: [&[Fp]; 1] = [&instance];
    let mut transcript = Blake2bWrite::<_, EqAffine, Challenge255<EqAffine>>::init(vec![]);
    create_proof(params, &pk, &[circuit], &[&columns], OsRng, &mut transcript).unwrap();
    transcript.finalize()
}

fn backend(params: Params<EqAffine>) -> Halo2Backend {
    let vk = keygen_vk(&params, &empty_circuit()).unwrap();
    Halo2Backend::new(Halo2Artifacts { params, vk }).unwrap()
}

fn inputs(threshold: u64) -> PublicInputs {
    PublicInputs { threshold, old_state_root: [0u8; 32], nonce: 1 }
}

#[test]
fn halo2_valid_proof_is_accepted() {
    let params: Params<EqAffine> = Params::new(K);
    let proof = generate_valid_proof_with_params(39, 40, &params);
    let backend = backend(params);
    assert_eq!(backend.verify(&proof, &inputs(40)), Ok(()));
    assert_eq!(verify(&backend, ProofInput { proof_bytes: &proof, public_threshold: 40 }), Ok(()));
    assert_eq!(backend.verify(&proof, &inputs(41)), Err(ProtocolError::InvalidProof));
}

#[test]
fn halo2_malleability_rejected() {
    let params: Params<EqAffine> = Params::new(K);
    let mut proof = generate_valid_proof_with_params(39, 40, &params);

    // Malleate: flip a bit inside the transcript
    if proof.len() > 200 {
        proof[150] ^= 0x01;
    }

    let backend = backend(params);
    let inputs = PublicInputs { threshold: 40, old_state_root: [0u8; 32], nonce: 1 };
    assert!(backend.verify(&proof, &inputs).is_err(), "Malleated proof accepted!");
}

#[test]
fn halo2_serialization_corruption_rejected() {
    let params: Params<EqAffine> = Params::new(K);
    let proof = generate_valid_proof_with_params(39, 40, &params);

    // Corrupt: truncate the transcript
    let mut corrupt_proof = proof.clone();
    corrupt_proof.truncate(proof.len() - 10);
    let backend = backend(params);
    let inputs = PublicInputs { threshold: 40, old_state_root: [0u8; 32], nonce: 1 };
    assert!(backend.verify(&corrupt_proof, &inputs).is_err(), "Corrupt serialization accepted!");
}

#[test]
fn halo2_single_byte_flips_rejected() {
    let params: Params<EqAffine> = Params::new(K);
    let proof = generate_valid_proof_with_params(5, 10, &params);
    let backend = backend(params);
    let mut position = 0;
    while position < proof.len() {
        let mut flipped = proof.clone();
        flipped[position] ^= 0x80;
        assert_eq!(backend.verify(&flipped, &inputs(10)), Err(ProtocolError::InvalidProof));
        position += 97;
    }
    assert_eq!(backend.verify(&[], &inputs(10)), Err(ProtocolError::InvalidProof));
}

#[test]
fn halo2_score_above_threshold_fails() {
    let params: Params<EqAffine> = Params::new(K);
    let proof = generate_valid_proof_with_params(41, 40, &params);
    let backend = backend(params);
    assert_eq!(backend.verify(&proof, &inputs(40)), Err(ProtocolError::InvalidProof));
}

#[test]
fn halo2_range_boundary() {
    let params: Params<EqAffine> = Params::new(K);
    let at_bound = generate_valid_proof_with_params(0, 65535, &params);
    let past_bound = generate_valid_proof_with_params(0, 65536, &params);
    let backend = backend(params);
    assert_eq!(backend.verify(&at_bound, &inputs(65535)), Ok(()));
    assert_eq!(backend.verify(&past_bound, &inputs(65536)), Err(ProtocolError::InvalidProof));
}

#[test]
fn backends_agree_on_scenarios() {
    let params: Params<EqAffine> = Params::new(K);
    let scenarios = [
        (39u64, 40u64, Ok(())),
        (41, 40, Err(ProtocolError::InvalidProof)),
        (0, 0, Ok(())),
        (u64::MAX, u64::MAX, Ok(())),
        (u64::MAX - 1, u64::MAX, Ok(())),
    ];
    let proofs: Vec<Vec<u8>> = scenarios
        .iter()
        .map(|(s, t, _)| generate_valid_proof_with_params(*s, *t, &params))
        .collect();
    let circuit = ProofBackend::Circuit(backend(params));
    let execution = ProofBackend::Execution(ZkVmBackend::new([6u8; 32]));
    for ((score, threshold, expected), proof) in scenarios.iter().zip(proofs.iter()) {
        let public = inputs(*threshold);
        assert_eq!(circuit.verify(proof, &public), *expected);
        let receipt = zkvm_prove([6u8; 32], *score, &public).unwrap_or_default();
        assert_eq!(execution.verify(&receipt, &public), *expected);
    }
}

#[test]
fn score_below_threshold_passes() {
    let threshold = Fp::from(10);

    let circuit = ScoreCircuit { score: Value::known(5), threshold: Value::known(10) };

    let prover = MockProver::run(4, &circuit, vec![vec![threshold]]).unwrap();

    prover.assert_satisfied();
}

#[test]
fn score_above_threshold_is_unsatisfiable() {
    let circuit = ScoreCircuit { score: Value::known(15), threshold: Value::known(10) };
    let prover = MockProver::run(4, &circuit, vec![vec![Fp::from(10)]]).unwrap();
    assert!(prover.verify().is_err());
}

#[test]
fn instance_must_match_threshold_advice() {
    let circuit = ScoreCircuit { score: Value::known(5), threshold: Value::known(10) };
    let prover = MockProver::run(4, &circuit, vec![vec![Fp::from(11)]]).unwrap();
    assert!(prover.verify().is_err());
}

#[test]
fn mismatched_artifacts_are_refused() {
    let small: Params<EqAffine> = Params::new(K);
    let large: Params<EqAffine> = Params::new(K + 1);
    let vk = keygen_vk(&large, &empty_circuit()).unwrap();
    assert!(Halo2Backend::new(Halo2Artifacts { params: small, vk }).is_none());
}
