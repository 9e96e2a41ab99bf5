//! Hex-encoded MD5 digests of text.
use vstd::prelude::*;

use md5::{Digest, Md5};
use vstd::string::StringSliceAdditionalSpecFns;

verus! {

/// The MD5 digest of some bytes.
pub uninterp spec fn md5_of(bytes: Seq<u8>) -> Seq<u8>;

/// Relies on md-5's `Md5::digest`: the digest of the bytes, a function of
/// them alone, sixteen bytes long (its output type has that fixed length).
#[verifier::external_body]
fn md5_digest(bytes: &[u8]) -> (r: Vec<u8>)
    ensures
        r@ == md5_of(bytes@),
        r@.len() == 16,
{
    Md5::digest(bytes).to_vec()
}

/// The lower-case hexadecimal digit for `n` below sixteen.
pub open spec fn hex_digit(n: u8) -> char
    recommends
        n < 16,
{
    seq!['0', '1', '2', '3', '4', '5', '6', '7', '8', '9', 'a', 'b', 'c', 'd', 'e', 'f'][n as int]
}

/// Two lower-case hexadecimal digits per byte, high digit first.
pub open spec fn hex_of(bytes: Seq<u8>) -> Seq<char>
    decreases bytes.len(),
{
    if bytes.len() == 0 {
        Seq::<char>::empty()
    } else {
        hex_of(bytes.drop_last()) + seq![hex_digit(bytes.last() / 16), hex_digit(bytes.last() % 16)]
    }
}

/// Relies on `hex::encode`: two lower-case digits per byte, high digit first.
#[verifier::external_body]
fn encode_hex(bytes: &[u8]) -> (r: String)
    ensures
        r@ == hex_of(bytes@),
{
    hex::encode(bytes)
}

/// The MD5 digest of the UTF-8 bytes of `input`, in lower-case hexadecimal.
pub fn md5_string(input: &str) -> (r: String)
    ensures
        r@ == hex_of(md5_of(input.spec_bytes())),
{
    let digest = md5_digest(input.as_bytes());
    encode_hex(digest.as_slice())
}

} // verus!
