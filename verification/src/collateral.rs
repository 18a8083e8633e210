//! Collateral-value-sufficiency checker.
//!
//! Consumes a private witness holding a secret collateral value, a salt and a
//! claimed commitment, and emits a public output whose validity bit says
//! whether the value meets the disclosed inclusive minimum *and* the claimed
//! commitment equals the one recomputed from the secret material. The secret
//! itself is never disclosed; an adversarial witness simply drives the bit to
//! false.

use vstd::prelude::*;

use crate::commitment::{value_commitment, verify_commitment};
use crate::decimal::{dec_of, u64_to_dec};

verus! {

use vstd::utf8::encode_utf8;

/// Private witness: the claimed commitment, the secret collateral value, the
/// disclosed inclusive minimum, and the salt the commitment was made with.
#[derive(Debug, Clone)]
pub struct CollateralInput {
    pub commitment: String,
    pub collateral_value: u64,
    pub min_value: u64,
    pub salt: String,
}

/// Public output: the claimed commitment and the disclosed minimum echoed
/// unchanged, and the validity bit.
#[derive(Debug, Clone)]
pub struct CollateralOutput {
    pub commitment: String,
    pub min_value: u64,
    pub is_valid: bool,
}

/// Whether a collateral witness is valid: the secret value meets the
/// inclusive minimum, and the claimed commitment equals the one recomputed
/// from the value's decimal text and the salt.
pub open spec fn collateral_valid(w: CollateralInput) -> bool {
    &&& w.collateral_value >= w.min_value
    &&& w.commitment@ == value_commitment(w.collateral_value, w.salt@)
}

/// Runs the collateral checker on one witness: recomputes the commitment,
/// evaluates the value-at-least-minimum predicate, and conjoins both into the
/// output's validity bit. The disclosed fields are echoed unchanged.
pub fn check_collateral(input: CollateralInput) -> (r: CollateralOutput)
    ensures
        r.commitment == input.commitment,
        r.min_value == input.min_value,
        r.is_valid == collateral_valid(input),
{
    let is_valid = input.collateral_value >= input.min_value;

    let mut parts: Vec<Vec<u8>> = Vec::new();
    parts.push(u64_to_dec(input.collateral_value));
    parts.push(input.salt.as_str().as_bytes_vec());
    proof {
        assert(parts.deep_view() =~~= seq![
            dec_of(input.collateral_value as nat),
            encode_utf8(input.salt@),
        ]);
    }
    let commitment_valid = verify_commitment(&parts, &input.commitment);

    CollateralOutput {
        commitment: input.commitment,
        min_value: input.min_value,
        is_valid: is_valid && commitment_valid,
    }
}

} // verus!
