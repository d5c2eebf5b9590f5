use vstd::prelude::*;
use vstd::string::StringExecFns;
use sha2::Digest;
use base64::Engine;

verus! {

/// The SHA-256 digest of a byte sequence.
pub uninterp spec fn sha256_of(b: Seq<u8>) -> Seq<u8>;

/// The standard, padded base64 text of a byte sequence.
pub uninterp spec fn base64_of(b: Seq<u8>) -> Seq<char>;

/// Relies on sha2's `Sha256::digest`: the 32-byte digest of the input.
#[verifier::external_body]
fn sha256_digest(b: &[u8]) -> (r: Vec<u8>)
    ensures
        r@ == sha256_of(b@),
        r@.len() == 32,
{
    sha2::Sha256::digest(b).to_vec()
}

/// Relies on base64's `general_purpose::STANDARD.encode`: standard alphabet,
/// with padding, so four characters for each started group of three bytes.
/// It panics only when that length overflows, which the bound rules out.
#[verifier::external_body]
fn base64_standard(b: &[u8]) -> (r: String)
    requires
        b@.len() <= 0xFFFF_FFFF,
    ensures
        r@ == base64_of(b@),
        r@.len() == 4 * ((b@.len() + 2) / 3),
{
    base64::engine::general_purpose::STANDARD.encode(b)
}

/// The rendered fingerprint of a public key: `SHA256:` followed by the
/// base64 text of the key's SHA-256 digest.
pub open spec fn fingerprint_text(key: Seq<u8>) -> Seq<char> {
    "SHA256:"@ + base64_of(sha256_of(key))
}

/// Computes the fingerprint of a public key.
pub fn key_fingerprint(public_key: &[u8]) -> (r: String)
    ensures
        r@ == fingerprint_text(public_key@),
        r@.len() == 51,
{
    let digest = sha256_digest(public_key);
    let encoded = base64_standard(digest.as_slice());
    let mut out = String::from_str("SHA256:");
    out.append(encoded.as_str());
    proof {
        reveal_strlit("SHA256:");
    }
    out
}

/// A fingerprint depends on the key bytes alone: equal keys give equal
/// fingerprints, and each is `SHA256:` followed by the base64 text of the
/// key's SHA-256 digest.
pub proof fn law_fingerprint_determinism(k1: Seq<u8>, k2: Seq<u8>)
    requires
        k1 == k2,
    ensures
        fingerprint_text(k1) == fingerprint_text(k2),
        fingerprint_text(k1) == "SHA256:"@ + base64_of(sha256_of(k1)),
        fingerprint_text(k1).subrange(0, 7) == "SHA256:"@,
{
    reveal_strlit("SHA256:");
    assert("SHA256:"@.len() == 7);
    assert(fingerprint_text(k1).subrange(0, 7) =~= "SHA256:"@);
}

} // verus!
