//! Content hashes of local files: the hex-encoded SHA-1 digest of the bytes.

use sha1::Digest;
use vstd::prelude::*;

verus! {

/// The SHA-1 digest of `data`.
pub uninterp spec fn sha1_of(data: Seq<u8>) -> Seq<u8>;

/// Lowercase hexadecimal digits.
pub open spec fn hex_digits() -> Seq<char> {
    seq!['0', '1', '2', '3', '4', '5', '6', '7', '8', '9', 'a', 'b', 'c', 'd', 'e', 'f']
}

/// Two lowercase hex digits per byte, high nibble first.
pub open spec fn hex_lower(b: Seq<u8>) -> Seq<char>
    decreases b.len(),
{
    if b.len() == 0 {
        Seq::empty()
    } else {
        hex_lower(b.drop_last()) + seq![
            hex_digits()[(b.last() / 16) as int],
            hex_digits()[(b.last() % 16) as int],
        ]
    }
}

/// The content hash of a file that holds `data`.
pub open spec fn content_hash_of(data: Seq<u8>) -> Seq<char> {
    hex_lower(sha1_of(data))
}

/// Relies on `sha1::Sha1::digest` (the `Digest` trait of the sha1 crate):
/// the SHA-1 digest of the whole input, whose output size is 20 bytes.
#[verifier::external_body]
fn sha1_digest(data: &[u8]) -> (r: Vec<u8>)
    ensures
        r@ == sha1_of(data@),
        r@.len() == 20,
{
    sha1::Sha1::digest(data).to_vec()
}

/// Relies on `hex::encode`: each byte becomes two lowercase hex digits,
/// high nibble first, in the order of the bytes.
#[verifier::external_body]
fn hex_encode(b: &[u8]) -> (r: String)
    ensures
        r@ == hex_lower(b@),
{
    hex::encode(b)
}

/// The content hash of `data`: its SHA-1 digest in lowercase hex.
pub fn content_hash(data: &[u8]) -> (r: String)
    ensures
        r@ == content_hash_of(data@),
{
    let digest = sha1_digest(data);
    hex_encode(digest.as_slice())
}

} // verus!
