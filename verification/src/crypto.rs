//! The cryptographic functions of the outside crates `sha2`, `hex`,
//! `ed25519-dalek` and `rand`, each behind one trusted item.

use vstd::prelude::*;

use crate::text::hex_text;

verus! {

/// One more than the length of the longest message that SHA-256 is defined for,
/// in bytes: the length in bits has to fit in 64 bits.
pub const SHA256_LENGTH_LIMIT: u64 = 0x2000_0000_0000_0000;

/// The 32 bytes of the SHA-256 digest of a message, as `sha2::Sha256::digest`
/// computes it.
pub uninterp spec fn sha256_digest(message: Seq<u8>) -> [u8; 32];

/// The text, in the form for debugging, of the error with which
/// `ed25519_dalek::VerifyingKey::from_bytes` refuses these bytes as a public key,
/// or `None` where it accepts them.
pub uninterp spec fn ed25519_key_refusal(key: Seq<u8>) -> Option<Seq<char>>;

/// The bytes are a public key, that is, the encoding of a point of the curve.
pub open spec fn ed25519_key_valid(key: Seq<u8>) -> bool {
    ed25519_key_refusal(key) is None
}

/// The text of the error with which verification by a public key refuses a
/// signature of a message, or `None` where it accepts it, as
/// `ed25519_dalek::VerifyingKey::verify` decides.
pub uninterp spec fn ed25519_refusal(
    key: Seq<u8>,
    message: Seq<u8>,
    signature: Seq<u8>,
) -> Option<Seq<char>>;

/// The public key of a secret key, as
/// `ed25519_dalek::SigningKey::verifying_key` gives it.
pub uninterp spec fn ed25519_public_key(secret: Seq<u8>) -> Seq<u8>;

/// The signature of a message under a secret key, as
/// `ed25519_dalek::SigningKey::sign` makes it.
pub uninterp spec fn ed25519_signature(secret: Seq<u8>, message: Seq<u8>) -> Seq<u8>;

/// `key` is a public key, and by it `signature` is a signature of `message`.
pub open spec fn ed25519_accepts(key: Seq<u8>, message: Seq<u8>, signature: Seq<u8>) -> bool {
    ed25519_key_valid(key) && ed25519_refusal(key, message, signature) is None
}

/// The error type of `ed25519-dalek`.
#[verifier::external_type_specification]
#[verifier::external_body]
pub struct ExEd25519Error(ed25519_dalek::ed25519::Error);

/// Calls `sha2::Sha256::digest`. The digest depends on the message alone. The
/// length of the message in bits is counted in 64 bits.
#[verifier::external_body]
pub(crate) fn sha256(message: &[u8]) -> (digest: [u8; 32])
    requires
        message@.len() < SHA256_LENGTH_LIMIT,
    ensures
        digest@ == sha256_digest(message@)@,
{
    <sha2::Sha256 as sha2::Digest>::digest(message).into()
}

/// Calls `hex::encode`, which writes every byte as two hexadecimal digits in
/// lower case. The text has to fit in memory.
#[verifier::external_body]
pub(crate) fn hex_encode(data: &[u8]) -> (text: String)
    requires
        2 * data@.len() <= isize::MAX,
    ensures
        text@ == hex_text(data@),
{
    hex::encode(data)
}

/// Calls `ed25519_dalek::Signature::from_slice`, which takes 64 bytes as they
/// are and refuses any other number of them.
#[verifier::external_body]
pub(crate) fn signature_from_slice(
    bytes: &[u8],
) -> (result: Result<[u8; 64], ed25519_dalek::ed25519::Error>)
    ensures
        result is Ok <==> bytes@.len() == 64,
        result is Ok ==> result->Ok_0@ == bytes@,
{
    ed25519_dalek::Signature::from_slice(bytes).map(|signature| signature.to_bytes())
}

/// Calls `ed25519_dalek::VerifyingKey::from_bytes`, and gives the text of its
/// error, in the form for debugging, where it refuses. The outcome depends on the
/// bytes alone, and a key keeps the bytes it was made from.
#[verifier::external_body]
pub(crate) fn verifying_key_from_bytes(
    bytes: &[u8; 32],
) -> (result: Result<[u8; 32], String>)
    ensures
        match result {
            Ok(key) => ed25519_key_refusal(bytes@) is None && key@ == bytes@,
            Err(text) => ed25519_key_refusal(bytes@) == Some(text@),
        },
{
    ed25519_dalek::VerifyingKey::from_bytes(bytes)
        .map(|key| key.to_bytes())
        .map_err(|error| format!("{:?}", error))
}

/// Calls `ed25519_dalek::VerifyingKey::verify`, and gives the text of its error
/// where it refuses. The outcome depends on the key, the message and the
/// signature alone.
#[verifier::external_body]
pub(crate) fn ed25519_verify(
    key: &[u8; 32],
    message: &[u8],
    signature: &[u8; 64],
) -> (result: Result<(), String>)
    requires
        ed25519_key_valid(key@),
    ensures
        match result {
            Ok(_) => ed25519_refusal(key@, message@, signature@) is None,
            Err(text) => ed25519_refusal(key@, message@, signature@) == Some(text@),
        },
{
    let key = ed25519_dalek::VerifyingKey::from_bytes(key).unwrap();
    let signature = ed25519_dalek::Signature::from_bytes(signature);
    ed25519_dalek::Verifier::verify(&key, message, &signature).map_err(|error| error.to_string())
}

/// Calls `ed25519_dalek::SigningKey::verifying_key`. The public key depends on
/// the secret key alone, and its bytes are the encoding of a point of the curve.
#[verifier::external_body]
pub(crate) fn ed25519_public(secret: &[u8; 32]) -> (key: [u8; 32])
    ensures
        key@ == ed25519_public_key(secret@),
        ed25519_key_valid(key@),
{
    ed25519_dalek::SigningKey::from_bytes(secret).verifying_key().to_bytes()
}

/// Calls `ed25519_dalek::SigningKey::sign`. The signature depends on the secret
/// key and the message alone, and verification by the public key of the secret
/// key accepts it: it solves the equation that verification checks.
#[verifier::external_body]
pub(crate) fn ed25519_sign(secret: &[u8; 32], message: &[u8]) -> (signature: [u8; 64])
    ensures
        signature@ == ed25519_signature(secret@, message@),
        ed25519_accepts(ed25519_public_key(secret@), message@, signature@),
{
    let key = ed25519_dalek::SigningKey::from_bytes(secret);
    ed25519_dalek::Signer::sign(&key, message).to_bytes()
}

/// Calls `ed25519_dalek::SigningKey::generate` on `rand::thread_rng`. The secret
/// key is drawn at random: nothing is claimed of its bytes. On a system without
/// a source of randomness there is no result.
#[verifier::external_body]
pub(crate) fn random_secret_key() -> (secret: [u8; 32]) {
    ed25519_dalek::SigningKey::generate(&mut rand::thread_rng()).to_bytes()
}

/// A signature is accepted exactly when the key is one and neither step of the
/// verification refuses; messages up to the limit of SHA-256 can be hashed.
pub proof fn law_acceptance_is_no_refusal(key: Seq<u8>, message: Seq<u8>, signature: Seq<u8>)
    ensures
        ed25519_key_valid(key) <==> ed25519_key_refusal(key) is None,
        ed25519_accepts(key, message, signature) <==> ed25519_key_refusal(key) is None
            && ed25519_refusal(key, message, signature) is None,
        SHA256_LENGTH_LIMIT * 8 == 0x1_0000_0000_0000_0000,
{
}

} // verus!
