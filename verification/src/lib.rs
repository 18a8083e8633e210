//! Commitment-verifying predicate checkers.
//!
//! Three small checkers, meant to run as the deterministic computation inside
//! a zero-knowledge proving pipeline, each consume a private witness, recompute
//! a public commitment binding the secret to its disclosed digest, evaluate a
//! domain predicate over the secret, and emit a public output whose validity
//! bit is the strict conjunction of the commitment check and the predicate:
//!
//! - [`collateral`]: is a collateral value at least a disclosed minimum?
//! - [`amount`]: is a loan amount within a disclosed inclusive range?
//! - [`reputation`]: does a repayment score recomputed from a loan history
//!   meet a disclosed threshold, and match the disclosed score?
//!
//! All three share one commitment primitive ([`commitment`]): SHA-256 over the
//! separator-free concatenation of the parts, the secret integer rendered as
//! canonical decimal text ([`decimal`]), the digest disclosed as lowercase hex.

pub mod amount;
pub mod collateral;
pub mod commitment;
pub mod decimal;
pub mod hashing;
pub mod reputation;
