use vstd::prelude::*;

use crate::text::{lower_hex, push_lower_hex, string_from_chars};

verus! {

/// The MD5 digest (16 bytes) that the `md5` crate computes for `data`.
pub uninterp spec fn md5_digest(data: Seq<u8>) -> Seq<u8>;

/// Computes the MD5 digest of `data` with `md5::compute`.
/// The contract claims only that the result is the digest of these bytes,
/// that is, a function of `data` alone.
#[verifier::external_body]
pub(crate) fn md5_compute(data: &[u8]) -> (d: [u8; 16])
    ensures
        d@ == md5_digest(data@),
{
    md5::compute(data).0
}

/// The MD5 digest of `data` written as 32 lowercase hexadecimal digits, as
/// `format!("{:x}", md5::compute(data))` writes it.
pub fn md5_hex(data: &[u8]) -> (s: String)
    ensures
        s@ == lower_hex(md5_digest(data@)),
        s@.len() == 32,
{
    let d = md5_compute(data);
    let mut chars: Vec<char> = Vec::new();
    push_lower_hex(&d, &mut chars);
    proof {
        lemma_lower_hex_len(d@);
    }
    string_from_chars(&chars)
}

/// Hexadecimal writing doubles the length.
pub proof fn lemma_lower_hex_len(bytes: Seq<u8>)
    ensures
        lower_hex(bytes).len() == 2 * bytes.len(),
    decreases bytes.len(),
{
    if bytes.len() > 0 {
        lemma_lower_hex_len(bytes.drop_last());
    }
}

} // verus!
