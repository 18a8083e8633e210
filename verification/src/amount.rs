//! Loan-amount-range checker.
//!
//! Consumes a private witness holding a secret loan amount, a salt and a
//! claimed commitment, and emits a public output whose validity bit says
//! whether the amount lies within the disclosed inclusive range *and* the
//! claimed commitment equals the one recomputed from the secret material.

use vstd::prelude::*;

use crate::commitment::{value_commitment, verify_commitment};
use crate::decimal::{dec_of, u64_to_dec};

verus! {

use vstd::utf8::encode_utf8;

/// Private witness: the claimed commitment, the secret loan amount, the
/// disclosed inclusive bounds, and the salt the commitment was made with.
#[derive(Debug, Clone)]
pub struct AmountInput {
    pub commitment: String,
    pub loan_amount: u64,
    pub min_amount: u64,
    pub max_amount: u64,
    pub salt: String,
}

/// Public output: the claimed commitment and the disclosed bounds echoed
/// unchanged, and the validity bit.
#[derive(Debug, Clone)]
pub struct AmountOutput {
    pub commitment: String,
    pub min_amount: u64,
    pub max_amount: u64,
    pub is_valid: bool,
}

/// The range predicate: both bounds inclusive. When the minimum exceeds the
/// maximum this is false for every amount; no separate guard is needed.
pub open spec fn amount_in_range(amount: u64, min_amount: u64, max_amount: u64) -> bool {
    amount >= min_amount && amount <= max_amount
}

/// Whether a loan-amount witness is valid: the secret amount lies in the
/// inclusive range, and the claimed commitment equals the one recomputed from
/// the amount's decimal text and the salt.
pub open spec fn amount_valid(w: AmountInput) -> bool {
    &&& amount_in_range(w.loan_amount, w.min_amount, w.max_amount)
    &&& w.commitment@ == value_commitment(w.loan_amount, w.salt@)
}

/// Runs the loan-amount checker on one witness: recomputes the commitment,
/// evaluates the in-range predicate, and conjoins both into the output's
/// validity bit. The disclosed fields are echoed unchanged.
pub fn check_amount(input: AmountInput) -> (r: AmountOutput)
    ensures
        r.commitment == input.commitment,
        r.min_amount == input.min_amount,
        r.max_amount == input.max_amount,
        r.is_valid == amount_valid(input),
{
    let is_in_range = input.loan_amount >= input.min_amount && input.loan_amount
        <= input.max_amount;

    let mut parts: Vec<Vec<u8>> = Vec::new();
    parts.push(u64_to_dec(input.loan_amount));
    parts.push(input.salt.as_str().as_bytes_vec());
    proof {
        assert(parts.deep_view() =~~= seq![
            dec_of(input.loan_amount as nat),
            encode_utf8(input.salt@),
        ]);
    }
    let commitment_valid = verify_commitment(&parts, &input.commitment);

    AmountOutput {
        commitment: input.commitment,
        min_amount: input.min_amount,
        max_amount: input.max_amount,
        is_valid: is_in_range && commitment_valid,
    }
}

/// Law: an empty range rejects every amount — when the disclosed minimum
/// exceeds the disclosed maximum, no loan amount whatsoever lies in the
/// range, so no witness with such bounds is valid.
pub proof fn lemma_empty_range_rejects_all(min_amount: u64, max_amount: u64)
    requires
        min_amount > max_amount,
    ensures
        forall|amount: u64| !amount_in_range(amount, min_amount, max_amount),
{
}

} // verus!
