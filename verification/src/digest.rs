//! The cryptographic digest behind block hashes.

use sha2::Digest;
use sha2::Sha256;
use vstd::prelude::*;

verus! {

/// The lowercase hexadecimal encoding of the SHA-256 digest of `bytes`.
/// The digest itself is left unstated: it depends on the input bytes alone,
/// and this name stands for it in every contract that speaks of a hash.
pub uninterp spec fn sha256_hex_of(bytes: Seq<u8>) -> Seq<char>;

/// Relies on sha2::Sha256 (new, update, finalize): the digest is 32 bytes and
/// depends on the input bytes alone; the `{:x}` rendering writes each byte as
/// two lowercase hexadecimal digits, 64 characters in all.
#[verifier::external_body]
pub(crate) fn sha256_hex(bytes: &[u8]) -> (r: String)
    ensures
        r@ == sha256_hex_of(bytes@),
        r@.len() == 64,
{
    let mut hasher = Sha256::new();
    hasher.update(bytes);
    format!("{:x}", hasher.finalize())
}

} // verus!
