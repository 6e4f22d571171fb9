//! BLAKE3 digests of file contents, used to check a received file.

use vstd::prelude::*;

verus! {

/// The lowercase hex form of the BLAKE3 digest of `data`.
pub uninterp spec fn blake3_hex(data: Seq<u8>) -> Seq<char>;

/// A lowercase hexadecimal digit.
pub open spec fn is_lower_hex_digit(c: char) -> bool {
    ('0' <= c && c <= '9') || ('a' <= c && c <= 'f')
}

/// blake3's `Hasher::update_rayon` over `data`, then `finalize().to_hex()`:
/// the digest of `data`, named `blake3_hex`, as 64 lowercase hex digits
/// (`to_hex` writes the 32 digest bytes with the table `0-9a-f`).
#[verifier::external_body]
fn blake3_hex_digest(data: &[u8]) -> (r: String)
    ensures
        r@ == blake3_hex(data@),
        r@.len() == 64,
        forall|i: int| 0 <= i < 64 ==> is_lower_hex_digit(#[trigger] r@[i]),
{
    let mut hasher = blake3::Hasher::new();
    hasher.update_rayon(data);
    hasher.finalize().to_hex().to_string()
}

/// The BLAKE3 digest of a file's contents, in lowercase hex (64 digits).
pub fn hash_contents(data: &[u8]) -> (r: String)
    ensures
        r@ == blake3_hex(data@),
        r@.len() == 64,
        forall|i: int| 0 <= i < 64 ==> is_lower_hex_digit(#[trigger] r@[i]),
{
    blake3_hex_digest(data)
}

} // verus!
