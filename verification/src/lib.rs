//! A non-interactive argument that two independently committed arrays of
//! scalar-field elements agree at designated, publicly known positions.
//!
//! The crate provides the full protocol stack: structured-reference-string
//! generation, KZG polynomial commitments, FFT-based evaluation domains
//! with cosets, a Fiat-Shamir transcript, and the prove/verify protocol
//! built on a rational-sumcheck grand-sum argument with quotient-polynomial
//! divisibility checks.
pub mod backend;
pub mod domain;
pub mod error;
pub mod kzg;
pub mod prover;
pub mod public_parameters;
pub mod statement;
pub mod transcript;
pub mod verification;
pub mod witness;
