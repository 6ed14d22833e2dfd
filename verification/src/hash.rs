//! Content hashing: Keccak-256 of the bytes of a canonical message.

use vstd::prelude::*;
use vstd::string::StringSliceAdditionalSpecFns;

verus! {

/// The Keccak-256 digest of `data` (the variant Ethereum uses, with the
/// padding of Keccak itself, not the one standardised as SHA3-256).
pub uninterp spec fn keccak256_digest(data: Seq<u8>) -> Seq<u8>;

/// The digest of a canonical message: Keccak-256 of its UTF-8 bytes.
pub open spec fn message_digest(message: Seq<char>) -> Seq<u8> {
    keccak256_digest(vstd::utf8::encode_utf8(message))
}

/// `sha3::Keccak256`, fed `data` once and finalised: the 32 bytes that come
/// back are the Keccak-256 digest of `data`.
#[verifier::external_body]
pub(crate) fn keccak256(data: &[u8]) -> (digest: [u8; 32])
    ensures
        digest@ == keccak256_digest(data@),
{
    let mut hasher = <sha3::Keccak256 as sha3::Digest>::new();
    sha3::Digest::update(&mut hasher, data);
    sha3::Digest::finalize(hasher).into()
}

/// Hashes a canonical message. Total: every finite message has a digest, and
/// the same message always has the same one.
pub fn hash_message(message: &str) -> (digest: [u8; 32])
    ensures
        digest@ == message_digest(message@),
{
    keccak256(message.as_bytes())
}

/// Hashing is a function of the message alone: equal messages have equal
/// digests, however often and wherever they are hashed.
pub proof fn lemma_hash_is_deterministic(first: Seq<char>, second: Seq<char>)
    requires
        first == second,
    ensures
        message_digest(first) == message_digest(second),
{
}

} // verus!
