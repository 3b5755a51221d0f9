//! Orchestration core of a PLONK-style proving toolchain: an R1CS constraint
//! model, a transpiler that rewrites constraints into fixed-width custom
//! gates, a setup builder that sizes the evaluation domain, a prover
//! orchestrator that validates witnesses and dispatches between proving
//! strategies, and a verifier outcome classifier. The elliptic-curve and
//! polynomial-commitment machinery is supplied by an external library and
//! reached only through narrow trusted wrappers.

pub mod field;
pub mod r1cs;
pub mod transpile;
pub mod domain;
pub mod replay;
pub mod plonk;
