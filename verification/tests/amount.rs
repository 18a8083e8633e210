use zk_checkers::amount::{check_amount, AmountInput};
use zk_checkers::commitment::compute_commitment;

fn witness(
    loan_amount: u64,
    min_amount: u64,
    max_amount: u64,
    salt: &str,
    commitment: String,
) -> AmountInput {
    AmountInput {
        commitment,
        loan_amount,
        min_amount,
        max_amount,
        salt: salt.to_string(),
    }
}

#[test]
fn amount_at_lower_boundary_is_valid() {
    let commitment = compute_commitment("500", "s2");
    let out = check_amount(witness(500, 500, 1000, "s2", commitment));
    assert!(out.is_valid);
}

#[test]
fn amount_at_upper_boundary_is_valid() {
    let commitment = compute_commitment("1000", "s2");
    let out = check_amount(witness(1000, 500, 1000, "s2", commitment));
    assert!(out.is_valid);
}

#[test]
fn empty_range_rejects_every_amount() {
    for amount in [0u64, 500, 600, 1000, u64::MAX] {
        let text = amount.to_string();
        let commitment = compute_commitment(&text, "s2");
        let out = check_amount(witness(amount, 1000, 500, "s2", commitment));
        assert!(!out.is_valid);
    }
}

#[test]
fn amount_inside_range_with_correct_commitment_is_valid() {
    let commitment = compute_commitment("750", "xyz");
    let out = check_amount(witness(750, 500, 1000, "xyz", commitment.clone()));
    assert!(out.is_valid);
    assert_eq!(out.commitment, commitment);
    assert_eq!(out.min_amount, 500);
    assert_eq!(out.max_amount, 1000);
}

#[test]
fn amount_above_range_is_invalid() {
    let commitment = compute_commitment("1200", "xyz");
    let out = check_amount(witness(1200, 500, 1000, "xyz", commitment));
    assert!(!out.is_valid);
}

#[test]
fn tampered_commitment_is_invalid_even_inside_range() {
    let out = check_amount(witness(750, 500, 1000, "xyz", "bogus".to_string()));
    assert!(!out.is_valid);
}
