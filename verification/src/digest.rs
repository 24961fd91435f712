use crate::encoding::{ascii_text, base64_encode, base64_nopad, lemma_base64_nopad_len};
use vstd::prelude::*;
use vstd::string::StringExecFns;

verus! {

/// The SHA-256 hash of `data`, as FIPS 180-4 defines it.
pub uninterp spec fn spec_sha256(data: Seq<u8>) -> Seq<u8>;

/// `Digest::digest` of the sha2 crate, for `Sha256`.
///
/// Trusted: the 32 bytes returned are the SHA-256 hash of the input, which
/// depends on the input alone.
#[verifier::external_body]
pub(crate) fn sha256(data: &[u8]) -> (hash: Vec<u8>)
    ensures
        hash@ == spec_sha256(data@),
        hash@.len() == 32,
{
    <sha2::Sha256 as sha2::Digest>::digest(data).to_vec()
}

/// The value of the `Digest` header for a request body: `SHA256=` followed
/// by the unpadded base64 text of the body's SHA-256 hash.
pub open spec fn digest_value(body: Seq<u8>) -> Seq<char> {
    "SHA256="@ + ascii_text(base64_nopad(spec_sha256(body)))
}

/// Computes the value of the `Digest` header for `body`. An empty body is
/// hashed like any other. The value has 50 characters: `SHA256=` and the
/// 43 symbols that encode the 32 bytes of the hash without padding.
pub fn compute(body: &[u8]) -> (value: String)
    ensures
        value@ == digest_value(body@),
        value@.len() == 50,
{
    let hash = sha256(body);
    let encoded = base64_encode(hash.as_slice());
    proof {
        lemma_base64_nopad_len(hash@);
        reveal_strlit("SHA256=");
    }
    let mut value = String::from_str("SHA256=");
    value.append(encoded.as_str());
    value
}

} // verus!
