//! Configuration digest and proof-journal output.
//!
//! The byte image of the configuration is committed to by its SHA-256 digest;
//! the journal record carries that digest, the credential digest and the
//! score list.

use vstd::prelude::*;
use sha2::Digest;
use crate::model::Output;

verus! {

/// The SHA-256 digest (32 bytes) of a byte sequence.
pub uninterp spec fn sha256_of(bytes: Seq<u8>) -> Seq<u8>;

/// Relies on sha2::Sha256::digest: the digest depends on the input bytes
/// alone and is exactly 32 bytes long.
#[verifier::external_body]
fn sha256_digest(bytes: &Vec<u8>) -> (r: [u8; 32])
    ensures
        r@ == sha256_of(bytes@),
{
    sha2::Sha256::digest(bytes.as_slice()).into()
}

/// The digest committed for a configuration byte image.
pub fn config_digest(config_bytes: &Vec<u8>) -> (r: [u8; 32])
    ensures
        r@ == sha256_of(config_bytes@),
{
    sha256_digest(config_bytes)
}

/// Assemble the journal record for a proof: the digest of the exact
/// configuration bytes consumed, the externally supplied credential digest,
/// and the score list.
pub fn build_output(config_bytes: &Vec<u8>, user_cred_hash: [u8; 32], scores: Vec<i64>) -> (out:
    Output)
    ensures
        out.config_hash@ == sha256_of(config_bytes@),
        out.user_cred_hash == user_cred_hash,
        out.scores == scores,
{
    Output { config_hash: sha256_digest(config_bytes), user_cred_hash: user_cred_hash, scores: scores }
}

/// Digest stability: any two serializations that yield the same canonical
/// byte image commit to the same configuration digest.
pub proof fn lemma_digest_stable(b1: Seq<u8>, b2: Seq<u8>)
    requires
        b1 == b2,
    ensures
        sha256_of(b1) == sha256_of(b2),
{
}

} // verus!
