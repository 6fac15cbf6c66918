//! The verifiable-execution backend: a receipt names the guest program that
//! ran and the digest of the journal it committed. The verifier recomputes
//! that digest from the public inputs, which binds the receipt to them.
//!
//! Receipt bytes: the 32-byte program identity followed by the 32-byte
//! journal digest, in bincode's encoding of two byte arrays.
//!
//! Journal digest: each committed field is hashed on its own, in the order
//! the guest commits them (threshold, old state root, nonce, the `ok` tag);
//! the four digests are concatenated and hashed once more.
use crate::errors::{accept_or_invalid, ProtocolError};
use crate::types::{Bytes32, PublicInputs};
use vstd::prelude::*;

verus! {

#[verifier::external_type_specification]
#[verifier::external_body]
pub struct ExBincodeErrorKind(bincode::ErrorKind);

/// The SHA-256 digest of `data`.
pub uninterp spec fn sha256_of(data: Seq<u8>) -> Seq<u8>;

/// Relies on risc0_zkp's `Sha256::hash_bytes` of the CPU implementation:
/// the SHA-256 digest of the bytes, returned as 32 bytes in digest order.
#[verifier::external_body]
fn sha256(data: &[u8]) -> (r: Bytes32)
    ensures
        r@ == sha256_of(data@),
{
    let digest = <risc0_zkp::core::hash::sha::cpu::Impl as risc0_zkp::core::hash::sha::Sha256>::hash_bytes(
        data,
    );
    <[u8; 32]>::from(*digest)
}

/// Relies on `bincode::deserialize` with its default options (fixed-size
/// integers, trailing bytes allowed): two 32-byte arrays are read as the
/// first 64 bytes, and fewer bytes end in an error.
#[verifier::external_body]
fn decode_hash_pair(bytes: &[u8]) -> (r: Result<(Bytes32, Bytes32), Box<bincode::ErrorKind>>)
    ensures
        r is Ok <==> bytes@.len() >= 64,
        r matches Ok(pair) ==> pair.0@ == bytes@.subrange(0, 32) && pair.1@ == bytes@.subrange(
            32,
            64,
        ),
{
    bincode::deserialize::<(Bytes32, Bytes32)>(bytes)
}

/// Relies on `bincode::serialize` with its default options (no size
/// limit, written into a `Vec`): two 32-byte arrays are written as their 64
/// bytes, in order, with no length prefix, and nothing in that can fail.
#[verifier::external_body]
fn encode_hash_pair(pair: &(Bytes32, Bytes32)) -> (r: Result<Vec<u8>, Box<bincode::ErrorKind>>)
    ensures
        r is Ok,
        r matches Ok(v) ==> v@ == pair.0@ + pair.1@,
{
    bincode::serialize(pair)
}

/// The little-endian encoding of `x` in `n` bytes.
pub open spec fn le_bytes(x: nat, n: nat) -> Seq<u8>
    decreases n,
{
    if n == 0 {
        Seq::empty()
    } else {
        seq![(x % 256) as u8] + le_bytes(x / 256, (n - 1) as nat)
    }
}

/// The number that little-endian bytes encode.
pub open spec fn le_value(bytes: Seq<u8>) -> nat
    decreases bytes.len(),
{
    if bytes.len() == 0 {
        0
    } else {
        bytes[0] as nat + 256 * le_value(bytes.drop_first())
    }
}

/// `256^n`.
pub open spec fn byte_bound(n: nat) -> nat
    decreases n,
{
    if n == 0 {
        1
    } else {
        256 * byte_bound((n - 1) as nat)
    }
}

/// Decoding the `n`-byte encoding of `x` gives `x` back, for `x` below `256^n`.
proof fn lemma_le_bytes_decode(x: nat, n: nat)
    requires
        x < byte_bound(n),
    ensures
        le_value(le_bytes(x, n)) == x,
    decreases n,
{
    if n > 0 {
        let rest = byte_bound((n - 1) as nat);
        let q = x / 256;
        assert(q < rest) by (nonlinear_arith)
            requires
                q == x / 256,
                x < 256 * rest,
        ;
        lemma_le_bytes_decode(q, (n - 1) as nat);
        let s = le_bytes(x, n);
        assert(s.drop_first() == le_bytes(q, (n - 1) as nat));
        assert(x == (x % 256) + 256 * q) by (nonlinear_arith)
            requires
                q == x / 256,
        ;
    }
}

/// Distinct `u64` values are hashed from distinct bytes.
proof fn lemma_u64_bytes_injective(a: u64, b: u64)
    ensures
        a != b ==> u64_bytes(a) != u64_bytes(b),
{
    reveal_with_fuel(byte_bound, 9);
    lemma_le_bytes_decode(a as nat, 8);
    lemma_le_bytes_decode(b as nat, 8);
}

/// The 8-byte little-endian encoding of a `u64`.
pub open spec fn u64_bytes(x: u64) -> Seq<u8> {
    le_bytes(x as nat, 8)
}

/// Encodes `x` as 8 little-endian bytes.
pub fn encode_u64(x: u64) -> (r: Vec<u8>)
    ensures
        r@ == u64_bytes(x),
{
    let mut r: Vec<u8> = Vec::new();
    let mut v: u64 = x;
    let mut i: usize = 0;
    while i < 8
        invariant
            0 <= i <= 8,
            r@ + le_bytes(v as nat, (8 - i) as nat) == u64_bytes(x),
        decreases 8 - i,
    {
        let ghost before = r@;
        let ghost rest = le_bytes((v / 256) as nat, (8 - i - 1) as nat);
        assert(le_bytes(v as nat, (8 - i) as nat) == seq![(v % 256) as u8] + rest);
        r.push((v % 256) as u8);
        assert(r@ + rest == before + (seq![(v % 256) as u8] + rest));
        v = v / 256;
        i += 1;
    }
    assert(r@ + Seq::<u8>::empty() == r@);
    r
}

/// The public output the guest commits last.
#[derive(Clone, Copy, Debug, PartialEq, Eq, Structural)]
pub struct ZkVmOutput {
    pub ok: bool,
}

/// The bytes of an output as it is hashed: one byte, 1 for `true`.
pub open spec fn output_bytes(out: ZkVmOutput) -> Seq<u8> {
    seq![if out.ok { 1u8 } else { 0u8 }]
}

impl ZkVmOutput {
    /// Encodes the output as it is hashed.
    pub fn to_bytes(&self) -> (r: Vec<u8>)
        ensures
            r@ == output_bytes(*self),
    {
        let mut r: Vec<u8> = Vec::new();
        r.push(if self.ok { 1u8 } else { 0u8 });
        assert(r@ == output_bytes(*self));
        r
    }
}

/// The digest the guest's journal has when run with `inputs`.
pub open spec fn journal_digest_of(inputs: PublicInputs) -> Seq<u8> {
    sha256_of(
        sha256_of(u64_bytes(inputs.threshold)) + sha256_of(inputs.old_state_root@) + sha256_of(
            u64_bytes(inputs.nonce),
        ) + sha256_of(output_bytes(ZkVmOutput { ok: true })),
    )
}

fn append(v: &mut Vec<u8>, b: &[u8])
    ensures
        final(v)@ == old(v)@ + b@,
{
    let mut i: usize = 0;
    while i < b.len()
        invariant
            0 <= i <= b@.len(),
            v@ == old(v)@ + b@.subrange(0, i as int),
        decreases b@.len() - i,
    {
        v.push(b[i]);
        assert(b@.subrange(0, i + 1) == b@.subrange(0, i as int).push(b@[i as int]));
        i += 1;
    }
    assert(b@.subrange(0, b@.len() as int) == b@);
}

/// Recomputes the journal digest that binds a receipt to `inputs`.
pub fn expected_journal_digest(inputs: &PublicInputs) -> (r: Bytes32)
    ensures
        r@ == journal_digest_of(*inputs),
{
    let threshold = encode_u64(inputs.threshold);
    let nonce = encode_u64(inputs.nonce);
    let tag = ZkVmOutput { ok: true }.to_bytes();
    let h_threshold = sha256(threshold.as_slice());
    let h_root = sha256(inputs.old_state_root.as_slice());
    let h_nonce = sha256(nonce.as_slice());
    let h_tag = sha256(tag.as_slice());
    let mut all: Vec<u8> = Vec::new();
    append(&mut all, h_threshold.as_slice());
    append(&mut all, h_root.as_slice());
    append(&mut all, h_nonce.as_slice());
    append(&mut all, h_tag.as_slice());
    sha256(all.as_slice())
}

/// A receipt of a guest run: the program that ran and its journal digest.
#[derive(Clone, Copy, Debug)]
pub struct ZkVmProof {
    pub method_id: Bytes32,
    pub journal_digest: Bytes32,
}

/// The receipt bytes of a program identity and a journal digest.
pub open spec fn receipt_bytes(method_id: Seq<u8>, journal_digest: Seq<u8>) -> Seq<u8> {
    method_id + journal_digest
}

impl ZkVmProof {
    /// Decodes receipt bytes; anything shorter than a receipt is an invalid
    /// proof. Bytes after the receipt are ignored.
    pub fn from_bytes(bytes: &[u8]) -> (r: Result<ZkVmProof, ProtocolError>)
        ensures
            r is Ok <==> bytes@.len() >= 64,
            r matches Ok(p) ==> p.method_id@ == bytes@.subrange(0, 32)
                && p.journal_digest@ == bytes@.subrange(32, 64),
            r matches Err(e) ==> e == ProtocolError::InvalidProof,
    {
        match decode_hash_pair(bytes) {
            Ok(pair) => Ok(ZkVmProof { method_id: pair.0, journal_digest: pair.1 }),
            Err(_) => Err(ProtocolError::InvalidProof),
        }
    }

    /// Encodes the receipt.
    pub fn to_bytes(&self) -> (r: Vec<u8>)
        ensures
            r@ == receipt_bytes(self.method_id@, self.journal_digest@),
    {
        match encode_hash_pair(&(self.method_id, self.journal_digest)) {
            Ok(v) => v,
            Err(_) => {
                proof {
                    assert(false);
                }
                Vec::new()
            },
        }
    }
}

/// Compares a decoded receipt with the expected program identity and the
/// recomputed journal digest.
pub fn check_receipt(receipt: &ZkVmProof, program_id: &Bytes32, expected_journal: &Bytes32) -> (r: Result<
    (),
    ProtocolError,
>)
    ensures
        r == accept_or_invalid(
            receipt.method_id@ == program_id@ && receipt.journal_digest@ == expected_journal@,
        ),
{
    if !crate::types::hash_eq(&receipt.method_id, program_id) {
        return Err(ProtocolError::InvalidProof);
    }
    if !crate::types::hash_eq(&receipt.journal_digest, expected_journal) {
        return Err(ProtocolError::InvalidProof);
    }
    Ok(())
}

/// The verifiable-execution backend, configured with the identity of the
/// guest program whose receipts it accepts.
#[derive(Clone, Copy, Debug)]
pub struct ZkVmBackend {
    pub program_id: Bytes32,
}

impl ZkVmBackend {
    /// A backend that accepts receipts of the program `program_id`.
    pub fn new(program_id: Bytes32) -> (r: ZkVmBackend)
        ensures
            r.program_id == program_id,
    {
        ZkVmBackend { program_id }
    }

    /// The receipt bytes name this backend's program and carry the journal
    /// digest of `inputs`.
    pub open spec fn accepts(&self, proof: Seq<u8>, inputs: PublicInputs) -> bool {
        &&& proof.len() >= 64
        &&& proof.subrange(0, 32) == self.program_id@
        &&& proof.subrange(32, 64) == journal_digest_of(inputs)
    }

    /// Verifies receipt bytes against the public inputs.
    pub fn verify(&self, proof_bytes: &[u8], public_inputs: &PublicInputs) -> (r: Result<
        (),
        ProtocolError,
    >)
        ensures
            r == accept_or_invalid(self.accepts(proof_bytes@, *public_inputs)),
    {
        let receipt = match ZkVmProof::from_bytes(proof_bytes) {
            Ok(p) => p,
            Err(e) => return Err(e),
        };
        let expected = expected_journal_digest(public_inputs);
        check_receipt(&receipt, &self.program_id, &expected)
    }
}

/// The guest program's run, on the host: it asserts `score <= threshold`
/// and commits the public inputs. Returns the digest of the journal it
/// commits, or `None` where the assertion stops it.
pub fn run_guest(score: u64, public_inputs: &PublicInputs) -> (r: Option<Bytes32>)
    ensures
        r is Some <==> score <= public_inputs.threshold,
        r matches Some(d) ==> d@ == journal_digest_of(*public_inputs),
{
    if score > public_inputs.threshold {
        return None;
    }
    Some(expected_journal_digest(public_inputs))
}

/// The receipt bytes of an honest run of the program `program_id` with a
/// private `score`; `None` where the guest refuses the score.
pub fn prove(program_id: Bytes32, score: u64, public_inputs: &PublicInputs) -> (r: Option<Vec<u8>>)
    ensures
        r is Some <==> score <= public_inputs.threshold,
        r matches Some(v) ==> v@ == receipt_bytes(program_id@, journal_digest_of(*public_inputs)),
{
    let journal_digest = match run_guest(score, public_inputs) {
        Some(d) => d,
        None => return None,
    };
    Some(ZkVmProof { method_id: program_id, journal_digest }.to_bytes())
}

/// An honest receipt is accepted by a backend of the same program for the
/// public inputs it was made with.
pub proof fn lemma_honest_receipt_accepted(
    backend: ZkVmBackend,
    public_inputs: PublicInputs,
    proof: Seq<u8>,
)
    requires
        proof == receipt_bytes(backend.program_id@, journal_digest_of(public_inputs)),
        journal_digest_of(public_inputs).len() == 32,
    ensures
        backend.accepts(proof, public_inputs),
{
    assert(proof.subrange(0, 32) =~= backend.program_id@);
    assert(proof.subrange(32, 64) =~= journal_digest_of(public_inputs));
}

/// Public inputs that differ in the threshold or the nonce are hashed from
/// different bytes in that field (the state root is hashed as it is). That
/// the digests then differ as well is the collision resistance of SHA-256,
/// which nothing here states.
pub proof fn lemma_field_encodings_injective(a: PublicInputs, b: PublicInputs)
    ensures
        a.threshold != b.threshold ==> u64_bytes(a.threshold) != u64_bytes(b.threshold),
        a.nonce != b.nonce ==> u64_bytes(a.nonce) != u64_bytes(b.nonce),
{
    lemma_u64_bytes_injective(a.threshold, b.threshold);
    lemma_u64_bytes_injective(a.nonce, b.nonce);
}

/// Encoding a receipt and decoding the bytes gives the receipt back.
pub proof fn lemma_receipt_round_trip(p: ZkVmProof, bytes: Seq<u8>)
    requires
        bytes == receipt_bytes(p.method_id@, p.journal_digest@),
    ensures
        bytes.len() >= 64,
        bytes.subrange(0, 32) == p.method_id@,
        bytes.subrange(32, 64) == p.journal_digest@,
{
    assert(bytes.subrange(0, 32) =~= p.method_id@);
    assert(bytes.subrange(32, 64) =~= p.journal_digest@);
}

} // verus!
