//! Batched verifier for Pedersen-style vector commitments embedded in a
//! Groth16-family proof, targeting the BN254 curve primitives.
//!
//! The crate has two collaborating entry points: a challenge deriver, which
//! binds each commitment to the public inputs it covers and produces one
//! Fiat-Shamir challenge scalar for the whole batch, and a batched pairing
//! verifier, which folds every commitment into a single multi-pairing check.

pub mod bn254;
pub mod bytes;
pub mod commitments;
pub mod error;
pub mod hash;
