//! Canonical decimal rendering of unsigned integers.
//!
//! The commitment scheme hashes each secret integer as its decimal text, so
//! the rendering must be canonical: no leading zeros, a single `'0'` for zero.

use vstd::prelude::*;

verus! {

/// The canonical decimal text of `n`, as ASCII bytes: most significant digit
/// first, no leading zeros, a single `'0'` for zero.
pub open spec fn dec_of(n: nat) -> Seq<u8>
    decreases n,
{
    if n < 10 {
        seq![(48 + n) as u8]
    } else {
        dec_of(n / 10).push((48 + n % 10) as u8)
    }
}

/// Renders `n` as its canonical decimal text, the form fed to the commitment
/// hash.
pub fn u64_to_dec(n: u64) -> (r: Vec<u8>)
    ensures
        r@ == dec_of(n as nat),
{
    let mut digits: Vec<u8> = Vec::new();
    if n == 0 {
        digits.push(48);
        assert(digits@ =~= dec_of(0));
        return digits;
    }
    let mut m: u64 = n;
    proof {
        assert(dec_of(n as nat) =~= dec_of(m as nat) + digits@);
    }
    while m > 0
        invariant
            m > 0 ==> dec_of(n as nat) == dec_of(m as nat) + digits@,
            m == 0 ==> dec_of(n as nat) == digits@,
        decreases m,
    {
        let d: u8 = 48 + (m % 10) as u8;
        proof {
            let prior = digits@;
            if m >= 10 {
                assert(dec_of(m as nat) == dec_of(m as nat / 10).push(d));
                assert(dec_of(m as nat) + prior =~= dec_of(m as nat / 10) + prior.insert(
                    0,
                    d,
                ));
            } else {
                assert(dec_of(m as nat) =~= seq![d]);
                assert(dec_of(m as nat) + prior =~= prior.insert(0, d));
            }
        }
        digits.insert(0, d);
        m = m / 10;
    }
    digits
}

} // verus!
