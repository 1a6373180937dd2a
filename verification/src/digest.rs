//! The commitment to a payload: the lower-case hexadecimal text of its
//! SHA-256 digest.
use vstd::prelude::*;
use crate::bytes::bytes_eq;
use sha2::Digest;

verus! {

/// The SHA-256 digest of `data`, as the `sha2` crate computes it.
pub uninterp spec fn sha256(data: Seq<u8>) -> Seq<u8>;

/// The lower-case hexadecimal digit of a value below sixteen.
pub open spec fn hex_digit(nibble: int) -> u8 {
    if nibble < 10 {
        (48 + nibble) as u8
    } else {
        (87 + nibble) as u8
    }
}

/// The lower-case hexadecimal text of `data`: two digits for each byte, the
/// high half first.
pub open spec fn hex_lower(data: Seq<u8>) -> Seq<u8> {
    Seq::new(
        2 * data.len(),
        |i: int|
            if i % 2 == 0 {
                hex_digit(data[i / 2] as int / 16)
            } else {
                hex_digit(data[i / 2] as int % 16)
            },
    )
}

/// The text that commits to `payload`.
pub open spec fn commitment(payload: Seq<u8>) -> Seq<u8> {
    hex_lower(sha256(payload))
}

/// `Sha256::digest` of the `sha2` crate. The digest is named, not spelled
/// out; its length is the 32 bytes of the algorithm's output.
#[verifier::external_body]
pub(crate) fn sha256_digest(data: &[u8]) -> (r: Vec<u8>)
    ensures
        r@ == sha256(data@),
        r@.len() == 32,
{
    sha2::Sha256::digest(data).to_vec()
}

/// `base16ct::lower::encode_string`, which writes two lower-case
/// hexadecimal digits for each byte, the high half first. It panics on an
/// input longer than half the address space, which `requires` leaves out.
#[verifier::external_body]
pub(crate) fn hex_encode(data: &[u8]) -> (r: Vec<u8>)
    requires
        data.len() <= usize::MAX / 2,
    ensures
        r@ == hex_lower(data@),
{
    base16ct::lower::encode_string(data).into_bytes()
}

/// Computes the text that commits to `payload`.
pub fn content_digest(payload: &[u8]) -> (r: Vec<u8>)
    ensures
        r@ == commitment(payload@),
        r@.len() == 64,
{
    let digest = sha256_digest(payload);
    hex_encode(digest.as_slice())
}

/// Whether `committed` is the commitment to `payload`.
pub fn digest_matches(payload: &[u8], committed: &[u8]) -> (r: bool)
    ensures
        r == (commitment(payload@) == committed@),
{
    let digest = content_digest(payload);
    bytes_eq(digest.as_slice(), committed)
}

} // verus!
