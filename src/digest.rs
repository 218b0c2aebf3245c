//! Digests and their lowercase hexadecimal rendering.
use vstd::prelude::*;

verus! {

/// The lowercase hexadecimal digit for a value below sixteen.
pub open spec fn hex_digit(v: u8) -> char {
    if v < 10 {
        ((v + 48) as u8) as char
    } else {
        ((v + 87) as u8) as char
    }
}

/// Two lowercase hexadecimal digits per byte, high nibble first.
pub open spec fn hex_lower(b: Seq<u8>) -> Seq<char>
    decreases b.len(),
{
    if b.len() == 0 {
        Seq::empty()
    } else {
        seq![hex_digit(b[0] / 16), hex_digit(b[0] % 16)] + hex_lower(b.drop_first())
    }
}

/// The SHA-1 digest of a byte string.
pub uninterp spec fn sha1_of(data: Seq<u8>) -> Seq<u8>;

/// Relies on `sha1_smol::Sha1::from` and `Sha1::hexdigest`: the digest is twenty
/// bytes, and `hexdigest` writes each of the five big-endian state words as eight
/// lowercase hex digits, which is the lowercase hex of the digest bytes.
#[verifier::external_body]
fn sha1_hexdigest(data: &[u8]) -> (r: String)
    ensures
        r@ == hex_lower(sha1_of(data@)),
        r@.len() == 40,
{
    sha1_smol::Sha1::from(data).hexdigest()
}

/// The thumbprint of a certificate's DER bytes: the lowercase hex of their SHA-1
/// digest, forty characters long.
pub fn get_thumbprint(der: &[u8]) -> (r: String)
    ensures
        r@ == hex_lower(sha1_of(der@)),
        r@.len() == 40,
{
    sha1_hexdigest(der)
}

} // verus!
