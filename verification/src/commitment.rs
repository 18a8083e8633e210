//! The shared commitment primitive.
//!
//! A commitment binds secret material and a salt to a digest disclosed as
//! lowercase hexadecimal text: the parts are concatenated in the given order,
//! with no separators or length prefixes, and hashed with SHA-256. Because the
//! concatenation is separator-free, two different splits that produce the same
//! concatenated bytes collide by design; callers keep each use case's field
//! order and rendering fixed.

use vstd::prelude::*;

use crate::decimal::dec_of;
use crate::hashing::{sha256_hex, sha256_hex_digest};

verus! {

use vstd::string::StringSliceAdditionalSpecFns;
use vstd::utf8::encode_utf8;

/// The digest text the primitive assigns to an ordered sequence of byte
/// strings: SHA-256 over their separator-free, in-order concatenation,
/// rendered as lowercase hex.
pub open spec fn commit_spec(parts: Seq<Seq<u8>>) -> Seq<char> {
    sha256_hex(parts.flatten())
}

/// The commitment that binds a secret integer to a salt: the value's
/// canonical decimal text followed by the salt's bytes. Shared by the
/// collateral and the loan-amount schemes.
pub open spec fn value_commitment(value: u64, salt: Seq<char>) -> Seq<char> {
    commit_spec(seq![dec_of(value as nat), encode_utf8(salt)])
}

/// Appends every byte of `src` to `dst`, in order.
fn append_bytes(dst: &mut Vec<u8>, src: &Vec<u8>)
    ensures
        final(dst)@ == old(dst)@ + src@,
{
    proof {
        assert(dst@ =~= dst@ + src@.take(0));
    }
    let mut j: usize = 0;
    while j < src.len()
        invariant
            j <= src@.len(),
            dst@ == old(dst)@ + src@.take(j as int),
        decreases src@.len() - j,
    {
        let b: u8 = src[j];
        proof {
            assert(old(dst)@ + src@.take(j + 1) =~= (old(dst)@ + src@.take(j as int)).push(
                b,
            ));
        }
        dst.push(b);
        j += 1;
    }
    proof {
        assert(src@.take(src@.len() as int) =~= src@);
    }
}

/// Concatenates the parts in the given order, with no separators.
fn concat_parts(parts: &Vec<Vec<u8>>) -> (r: Vec<u8>)
    ensures
        r@ == parts.deep_view().flatten(),
{
    let ghost dv = parts.deep_view();
    let mut joined: Vec<u8> = Vec::new();
    proof {
        assert(dv.take(0).flatten() =~= Seq::<u8>::empty());
    }
    let mut i: usize = 0;
    while i < parts.len()
        invariant
            i <= parts@.len(),
            dv == parts.deep_view(),
            dv.len() == parts@.len(),
            joined@ == dv.take(i as int).flatten(),
        decreases parts@.len() - i,
    {
        proof {
            assert(dv[i as int] =~= parts@[i as int]@);
            assert(dv.take(i + 1) =~= dv.take(i as int).push(dv[i as int]));
            dv.take(i as int).lemma_flatten_push(dv[i as int]);
        }
        append_bytes(&mut joined, &parts[i]);
        i += 1;
    }
    proof {
        assert(dv.take(dv.len() as int) =~= dv);
    }
    joined
}

/// Derives the commitment digest of the given parts: SHA-256 over their
/// separator-free, in-order concatenation, as 64 lowercase hex characters.
pub fn commit(parts: &Vec<Vec<u8>>) -> (r: String)
    ensures
        r@ == commit_spec(parts.deep_view()),
        r@.len() == 64,
{
    let joined = concat_parts(parts);
    sha256_hex_digest(&joined)
}

/// True iff `claimed` is byte-for-byte equal to the commitment recomputed
/// from the exact same ordered parts.
pub fn verify_commitment(parts: &Vec<Vec<u8>>, claimed: &String) -> (r: bool)
    ensures
        r == (claimed@ == commit_spec(parts.deep_view())),
{
    let expected = commit(parts);
    expected.eq(claimed)
}

/// The commitment of a secret value's text and a salt, hashed as
/// `value ++ salt`: the two-part scheme the collateral and loan-amount
/// checkers share.
pub fn compute_commitment(value: &str, salt: &str) -> (r: String)
    ensures
        r@ == commit_spec(seq![value.spec_bytes(), salt.spec_bytes()]),
{
    let mut parts: Vec<Vec<u8>> = Vec::new();
    parts.push(value.as_bytes_vec());
    parts.push(salt.as_bytes_vec());
    proof {
        assert(parts.deep_view() =~~= seq![value.spec_bytes(), salt.spec_bytes()]);
    }
    commit(&parts)
}

/// Law: the commitment primitive is deterministic — two digests derived from
/// identical parts are identical, across any two invocations.
pub proof fn lemma_commit_deterministic(parts: Seq<Seq<u8>>, d1: Seq<char>, d2: Seq<char>)
    requires
        d1 == commit_spec(parts),
        d2 == commit_spec(parts),
    ensures
        d1 == d2,
{
}

} // verus!
