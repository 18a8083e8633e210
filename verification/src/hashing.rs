//! Trusted boundary around the SHA-256 digest.
//!
//! The commitment scheme binds secret material to a 256-bit digest disclosed
//! as lowercase hexadecimal text. The digest itself is computed by the `sha2`
//! crate; this module gives its result a name, [`sha256_hex`], that the rest
//! of the library's contracts speak of.

use sha2::Digest;
use vstd::prelude::*;

verus! {

/// The SHA-256 digest of `bytes`, rendered as 64 lowercase hexadecimal
/// characters. A function of the input bytes alone.
pub uninterp spec fn sha256_hex(bytes: Seq<u8>) -> Seq<char>;

/// Relies on `sha2::Sha256` and generic-array's `LowerHex` rendering: the
/// digest depends on the input bytes alone, and formats as two lowercase hex
/// digits per digest byte, 64 characters for the 32-byte digest.
#[verifier::external_body]
pub(crate) fn sha256_hex_digest(bytes: &Vec<u8>) -> (r: String)
    ensures
        r@ == sha256_hex(bytes@),
        r@.len() == 64,
{
    let mut hasher = sha2::Sha256::new();
    hasher.update(bytes.as_slice());
    format!("{:x}", hasher.finalize())
}

} // verus!
