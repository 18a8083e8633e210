//! Borrower-reputation-threshold checker.
//!
//! Consumes a private witness holding a loan history, a disclosed score and
//! threshold, a nullifier, a salt and a claimed commitment. The checker
//! recomputes the repayment score from the history with exact integer
//! arithmetic, and the output's validity bit conjoins three checks: the
//! recomputed score meets the disclosed threshold, the claimed commitment
//! equals the one recomputed from the secret material, and the disclosed
//! score equals the recomputed one — a party cannot claim a score
//! inconsistent with its own loan history.

use vstd::prelude::*;

use crate::commitment::{commit_spec, verify_commitment};
use crate::decimal::{dec_of, u64_to_dec};

verus! {

use vstd::arithmetic::div_mod::{lemma_div_is_ordered, lemma_div_multiples_vanish};
use vstd::multiset::Multiset;
use vstd::utf8::encode_utf8;

/// One entry of a borrower's loan history. Only `repaid` affects the score;
/// the order of entries never does.
#[derive(Debug, Clone)]
pub struct LoanRecord {
    pub loan_id: u64,
    pub amount: u64,
    pub repaid: bool,
}

/// Private witness: the claimed commitment, the opaque nullifier the host
/// uses against replay, the disclosed score and threshold, the secret loan
/// history, and the salt the commitment was made with.
#[derive(Debug, Clone)]
pub struct ReputationInput {
    pub commitment: String,
    pub nullifier: String,
    pub user_score: u32,
    pub threshold: u32,
    pub loan_history: Vec<LoanRecord>,
    pub salt: String,
}

/// Public output: the claimed commitment, the nullifier and the disclosed
/// threshold echoed unchanged, and the validity bit.
#[derive(Debug, Clone)]
pub struct ReputationOutput {
    pub commitment: String,
    pub nullifier: String,
    pub threshold: u32,
    pub is_valid: bool,
}

/// How many entries of the history were repaid.
pub open spec fn repaid_count(history: Seq<LoanRecord>) -> nat
    decreases history.len(),
{
    if history.len() == 0 {
        0
    } else {
        repaid_count(history.drop_last()) + if history.last().repaid {
            1nat
        } else {
            0nat
        }
    }
}

/// The repayment score of a history: the repaid fraction as an integer
/// percentage, truncated toward zero; an empty history scores zero.
pub open spec fn score_of(history: Seq<LoanRecord>) -> nat {
    if history.len() == 0 {
        0
    } else {
        repaid_count(history) * 100 / history.len()
    }
}

/// The commitment that binds a disclosed score to a nullifier and a salt:
/// the score's canonical decimal text, then the nullifier's bytes, then the
/// salt's bytes.
pub open spec fn score_commitment(score: u32, nullifier: Seq<char>, salt: Seq<char>) -> Seq<
    char,
> {
    commit_spec(seq![dec_of(score as nat), encode_utf8(nullifier), encode_utf8(salt)])
}

/// Whether a reputation witness is valid: the score recomputed from the
/// history meets the threshold, the claimed commitment equals the recomputed
/// one, and the disclosed score equals the recomputed score.
pub open spec fn reputation_valid(w: ReputationInput) -> bool {
    &&& score_of(w.loan_history@) >= w.threshold as nat
    &&& w.commitment@ == score_commitment(w.user_score, w.nullifier@, w.salt@)
    &&& score_of(w.loan_history@) == w.user_score as nat
}

/// The repaid count of a history only depends on which records it holds, as
/// a multiset: it counts the repaid ones, however they are ordered.
proof fn lemma_repaid_count_multiset(history: Seq<LoanRecord>)
    ensures
        repaid_count(history) == history.to_multiset().filter(
            |l: LoanRecord| l.repaid,
        ).len(),
    decreases history.len(),
{
    broadcast use vstd::multiset::group_multiset_axioms;
    broadcast use vstd::seq_lib::group_to_multiset_ensures;

    let repaid = |l: LoanRecord| l.repaid;
    if history.len() == 0 {
        assert(history.to_multiset() =~= Multiset::<LoanRecord>::empty());
        assert(history.to_multiset().filter(repaid) =~= Multiset::<LoanRecord>::empty());
    } else {
        let rest = history.drop_last();
        let last = history.last();
        lemma_repaid_count_multiset(rest);
        assert(rest.push(last) =~= history);
        assert(history.to_multiset() =~= rest.to_multiset().insert(last));
        if repaid(last) {
            assert(history.to_multiset().filter(repaid) =~= rest.to_multiset().filter(
                repaid,
            ).insert(last));
        } else {
            assert(history.to_multiset().filter(repaid) =~= rest.to_multiset().filter(
                repaid,
            ));
        }
    }
}

/// Law: the repayment score is order-insensitive — two histories holding the
/// same records, as a multiset, score the same.
pub proof fn lemma_score_order_insensitive(h1: Seq<LoanRecord>, h2: Seq<LoanRecord>)
    requires
        h1.to_multiset() == h2.to_multiset(),
    ensures
        score_of(h1) == score_of(h2),
{
    broadcast use vstd::seq_lib::group_to_multiset_ensures;

    lemma_repaid_count_multiset(h1);
    lemma_repaid_count_multiset(h2);
    assert(h1.len() == h1.to_multiset().len());
    assert(h2.len() == h2.to_multiset().len());
}

/// At most every entry of a history is repaid.
proof fn lemma_repaid_count_le_len(history: Seq<LoanRecord>)
    ensures
        repaid_count(history) <= history.len(),
    decreases history.len(),
{
    if history.len() > 0 {
        lemma_repaid_count_le_len(history.drop_last());
    }
}

/// Recomputes the repayment score of a loan history: the repaid fraction as
/// an integer percentage in `[0, 100]`, truncated toward zero; an empty
/// history scores zero.
pub fn calculate_reputation(history: &[LoanRecord]) -> (r: u32)
    ensures
        r as nat == score_of(history@),
        r <= 100,
{
    if history.len() == 0 {
        return 0;
    }
    let mut repaid: u64 = 0;
    let mut i: usize = 0;
    while i < history.len()
        invariant
            i <= history@.len(),
            repaid <= i,
            repaid as nat == repaid_count(history@.take(i as int)),
        decreases history@.len() - i,
    {
        proof {
            let taken = history@.take(i + 1);
            assert(taken.drop_last() =~= history@.take(i as int));
            assert(taken.last() == history@[i as int]);
        }
        if history[i].repaid {
            repaid = repaid + 1;
        }
        i += 1;
    }
    proof {
        assert(history@.take(history@.len() as int) =~= history@);
        lemma_repaid_count_le_len(history@);
        lemma_div_is_ordered(
            repaid as int * 100,
            history@.len() as int * 100,
            history@.len() as int,
        );
        lemma_div_multiples_vanish(100, history@.len() as int);
    }
    let total: u128 = history.len() as u128;
    let score: u128 = (repaid as u128 * 100) / total;
    score as u32
}

/// Runs the reputation checker on one witness: recomputes the score from the
/// history, recomputes the commitment, and conjoins the threshold check, the
/// commitment check and the score-consistency check into the output's
/// validity bit. The disclosed fields are echoed unchanged.
pub fn check_reputation(input: ReputationInput) -> (r: ReputationOutput)
    ensures
        r.commitment == input.commitment,
        r.nullifier == input.nullifier,
        r.threshold == input.threshold,
        r.is_valid == reputation_valid(input),
{
    let calculated_score = calculate_reputation(input.loan_history.as_slice());
    let meets_threshold = calculated_score >= input.threshold;

    let mut parts: Vec<Vec<u8>> = Vec::new();
    parts.push(u64_to_dec(input.user_score as u64));
    parts.push(input.nullifier.as_str().as_bytes_vec());
    parts.push(input.salt.as_str().as_bytes_vec());
    proof {
        assert(parts.deep_view() =~~= seq![
            dec_of(input.user_score as nat),
            encode_utf8(input.nullifier@),
            encode_utf8(input.salt@),
        ]);
    }
    let commitment_valid = verify_commitment(&parts, &input.commitment);

    let score_consistent = calculated_score == input.user_score;

    ReputationOutput {
        commitment: input.commitment,
        nullifier: input.nullifier,
        threshold: input.threshold,
        is_valid: meets_threshold && commitment_valid && score_consistent,
    }
}

/// Law: an empty loan history scores zero, so it can only make a valid
/// witness when the disclosed threshold and the disclosed score are both
/// zero.
pub proof fn lemma_empty_history_needs_zero(w: ReputationInput)
    requires
        w.loan_history@.len() == 0,
    ensures
        score_of(w.loan_history@) == 0,
        reputation_valid(w) ==> w.threshold == 0 && w.user_score == 0,
{
}

} // verus!
