//! The digest that links audit events.
//!
//! The digest itself is computed by the `md5` crate; its text form, two
//! lower-case hexadecimal digits per byte, is produced here.

use crate::text::{hex_lower, lemma_hex_lower_len, push_hex_lower};
use vstd::prelude::*;
use vstd::utf8::encode_utf8;

verus! {

/// The MD5 digest of a byte string, as `md5::compute` returns it. The
/// function is total and depends on its argument alone; nothing else is
/// stated of it.
pub uninterp spec fn md5_digest(data: Seq<u8>) -> Seq<u8>;

/// Calls `md5::compute` and hands back the sixteen bytes of the digest.
/// Trusted: the result is the value named [`md5_digest`].
#[verifier::external_body]
fn md5_compute(data: &[u8]) -> (r: [u8; 16])
    ensures
        r@ == md5_digest(data@),
{
    md5::compute(data).0
}

/// Text of the digest of `text`: the digest of its UTF-8 bytes in lower-case
/// hexadecimal.
pub open spec fn digest_hex(text: Seq<char>) -> Seq<char> {
    hex_lower(md5_digest(encode_utf8(text)))
}

/// Computes the digest of `text` and renders it as thirty-two lower-case
/// hexadecimal digits.
pub fn compute_digest_hex(text: &str) -> (r: String)
    ensures
        r@ == digest_hex(text@),
        r@.len() == 32,
{
    let digest = md5_compute(text.as_bytes());
    let mut out = String::new();
    push_hex_lower(&mut out, digest.as_slice());
    proof {
        lemma_hex_lower_len(digest@);
        assert(out@ =~= hex_lower(digest@));
    }
    out
}

} // verus!
