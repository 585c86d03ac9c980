//! The hashing helper: bytes in, fixed-length lowercase hex digest out.

use vstd::prelude::*;

verus! {

/// The MD5 digest of a byte sequence, rendered as lowercase hex. The digest
/// is a pure function of the input bytes; its value is not restated here.
pub uninterp spec fn md5_hex_of(bytes: Seq<u8>) -> Seq<char>;

/// Relies on `md5::compute`, which returns the 16-byte MD5 digest of the
/// input, and on the digest's `LowerHex` rendering: two lowercase hex digits
/// per digest byte, 32 characters in all. The digest depends on the input
/// bytes alone.
#[verifier::external_body]
pub fn md5str(origin: &[u8]) -> (r: String)
    ensures
        r@ == md5_hex_of(origin@),
        r@.len() == 32,
{
    let digest = md5::compute(origin);
    format!("{:x}", digest)
}

} // verus!
