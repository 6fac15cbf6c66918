//! Verification of state transitions authorized by zero-knowledge proofs.
//!
//! A prover claims to know a secret `score` with `score <= threshold`; the
//! verifier checks the claim through a pluggable proof backend and, on
//! acceptance, advances a protocol state made of a state root and a nonce.
pub mod errors;
pub mod types;
pub mod circuit;
pub mod zkvm;
pub mod halo2;
pub mod backend;
pub mod policy;
pub mod engine;
