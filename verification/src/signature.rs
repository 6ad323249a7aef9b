//! Ed25519 signature verification for downloaded driver binaries.

use vstd::prelude::*;

use crate::crypto::{
    ed25519_accepts, ed25519_key_refusal, ed25519_key_valid, ed25519_refusal, ed25519_verify, hex_encode, sha256,
    sha256_digest, signature_from_slice, verifying_key_from_bytes, SHA256_LENGTH_LIMIT,
};
use crate::text::{hex_text, law_hex_digits, law_hex_is_unambiguous};

verus! {

/// Errors that can occur during signature verification.
#[derive(Debug, Clone, Copy, PartialEq, Eq, Structural)]
pub enum SignatureError {
    /// The signature bytes are not a valid Ed25519 signature.
    InvalidSignature,
    /// A public key in the keyring is invalid.
    InvalidKey,
    /// No public key in the keyring matches the signature.
    NoMatchingKey,
}

impl SignatureError {
    /// The text of the error.
    pub open spec fn text(self) -> Seq<char> {
        match self {
            SignatureError::InvalidSignature => "Invalid signature format"@,
            SignatureError::InvalidKey => "Invalid public key in keyring"@,
            SignatureError::NoMatchingKey => "Signature does not match any key in the keyring"@,
        }
    }

    /// The text of the error.
    pub fn message(&self) -> (text: String)
        ensures
            text@ == self.text(),
    {
        match self {
            SignatureError::InvalidSignature => "Invalid signature format".to_owned(),
            SignatureError::InvalidKey => "Invalid public key in keyring".to_owned(),
            SignatureError::NoMatchingKey =>
                "Signature does not match any key in the keyring".to_owned(),
        }
    }
}

/// An Ed25519 public key: 32 bytes that are the encoding of a point of the
/// curve.
#[derive(Debug, Clone, Copy, PartialEq, Eq)]
pub struct PublicKey {
    bytes: [u8; 32],
}

impl View for PublicKey {
    type V = Seq<u8>;

    closed spec fn view(&self) -> Seq<u8> {
        self.bytes@
    }
}

impl PublicKey {
    #[verifier::type_invariant]
    spec fn valid(self) -> bool {
        ed25519_key_valid(self.bytes@)
    }

    /// Takes 32 bytes as a public key; where they are none, the text of the error
    /// says why.
    pub fn from_bytes(bytes: &[u8; 32]) -> (result: Result<PublicKey, String>)
        ensures
            match result {
                Ok(key) => ed25519_key_valid(bytes@) && key@ == bytes@,
                Err(text) => !ed25519_key_valid(bytes@) && ed25519_key_refusal(bytes@) == Some(
                    text@,
                ),
            },
    {
        match verifying_key_from_bytes(bytes) {
            Ok(bytes) => Ok(PublicKey { bytes }),
            Err(text) => Err(text),
        }
    }

    /// The 32 bytes of the key.
    pub fn to_bytes(&self) -> (bytes: [u8; 32])
        ensures
            bytes@ == self@,
    {
        self.bytes
    }

    /// Verifies a signature of a message; where it is refused, the text of the
    /// error says why.
    pub fn verify(&self, message: &[u8], signature: &[u8; 64]) -> (result: Result<(), String>)
        ensures
            match result {
                Ok(_) => ed25519_accepts(self@, message@, signature@) && ed25519_refusal(
                    self@,
                    message@,
                    signature@,
                ) is None,
                Err(text) => !ed25519_accepts(self@, message@, signature@) && ed25519_refusal(
                    self@,
                    message@,
                    signature@,
                ) == Some(text@),
            },
    {
        proof {
            use_type_invariant(self);
        }
        ed25519_verify(&self.bytes, message, signature)
    }
}

/// What the verification of a signature by one entry of a keyring gave.
#[derive(Debug, Clone, Copy, PartialEq, Eq, Structural)]
pub enum KeyCheck {
    /// The entry is not a public key.
    InvalidKey,
    /// The key refuses the signature.
    Refused,
    /// The key accepts the signature.
    Accepted,
}

/// What the verification of a signature by one entry of a keyring gives.
pub open spec fn key_check(key: Seq<u8>, message: Seq<u8>, signature: Seq<u8>) -> KeyCheck {
    if !ed25519_key_valid(key) {
        KeyCheck::InvalidKey
    } else if ed25519_accepts(key, message, signature) {
        KeyCheck::Accepted
    } else {
        KeyCheck::Refused
    }
}

/// Some key of the keyring accepts the signature of the message.
pub open spec fn keyring_accepts(
    keyring: Seq<[u8; 32]>,
    message: Seq<u8>,
    signature: Seq<u8>,
) -> bool {
    exists|i: int|
        0 <= i < keyring.len() && ed25519_accepts(#[trigger] keyring[i]@, message, signature)
}

/// No entry of the keyring is a public key.
pub open spec fn no_valid_key(keyring: Seq<[u8; 32]>) -> bool {
    forall|i: int| 0 <= i < keyring.len() ==> !ed25519_key_valid(#[trigger] keyring[i]@)
}

/// Whether `binary` was signed by one of the keys of the keyring: the signature
/// is one of the SHA-256 hash of the binary. A keyring that holds entries and not
/// one public key is reported as such.
pub open spec fn binary_verdict(
    keyring: Seq<[u8; 32]>,
    binary: Seq<u8>,
    signature: Seq<u8>,
) -> Result<(), SignatureError> {
    if signature.len() != 64 {
        Err(SignatureError::InvalidSignature)
    } else if keyring_accepts(keyring, sha256_digest(binary)@, signature) {
        Ok(())
    } else if keyring.len() > 0 && no_valid_key(keyring) {
        Err(SignatureError::InvalidKey)
    } else {
        Err(SignatureError::NoMatchingKey)
    }
}

/// Has one entry of a keyring verify a signature.
pub fn check_key(key: &[u8; 32], message: &[u8], signature: &[u8; 64]) -> (check: KeyCheck)
    ensures
        check == key_check(key@, message@, signature@),
        check == KeyCheck::InvalidKey <==> ed25519_key_refusal(key@) is Some,
        check == KeyCheck::Accepted <==> ed25519_key_refusal(key@) is None && ed25519_refusal(
            key@,
            message@,
            signature@,
        ) is None,
{
    match PublicKey::from_bytes(key) {
        Err(_) => KeyCheck::InvalidKey,
        Ok(key) => match key.verify(message, signature) {
            Ok(_) => KeyCheck::Accepted,
            Err(_) => KeyCheck::Refused,
        },
    }
}

/// Has the entries of a keyring verify a signature, one after the other, up to
/// the first that accepts it.
pub fn check_keyring(keyring: &[[u8; 32]], message: &[u8], signature: &[u8; 64]) -> (checks: Vec<
    KeyCheck,
>)
    ensures
        checks@.len() <= keyring@.len(),
        forall|i: int|
            0 <= i < checks@.len() ==> #[trigger] checks@[i] == key_check(
                keyring@[i]@,
                message@,
                signature@,
            ),
        forall|i: int| 0 <= i < checks@.len() - 1 ==> #[trigger] checks@[i] != KeyCheck::Accepted,
        checks@.len() < keyring@.len() ==> checks@.len() > 0 && checks@.last()
            == KeyCheck::Accepted,
{
    let mut checks: Vec<KeyCheck> = Vec::new();
    let mut i: usize = 0;
    while i < keyring.len()
        invariant
            i <= keyring@.len(),
            checks@.len() == i,
            forall|j: int|
                0 <= j < i ==> #[trigger] checks@[j] == key_check(
                    keyring@[j]@,
                    message@,
                    signature@,
                ),
            forall|j: int| 0 <= j < i ==> #[trigger] checks@[j] != KeyCheck::Accepted,
        decreases keyring@.len() - i,
    {
        let check = check_key(&keyring[i], message, signature);
        checks.push(check);
        if check == KeyCheck::Accepted {
            return checks;
        }
        i = i + 1;
    }
    checks
}

/// No entry of a keyring that was checked is a public key.
pub open spec fn all_invalid(checks: Seq<KeyCheck>) -> bool {
    forall|i: int| 0 <= i < checks.len() ==> #[trigger] checks[i] == KeyCheck::InvalidKey
}

/// What the entries of a keyring say together: one that accepts the signature is
/// enough, and an entry that is not a public key is passed over, unless there are
/// no others.
pub fn keyring_verdict(checks: &[KeyCheck]) -> (result: Result<(), SignatureError>)
    ensures
        result == if checks@.contains(KeyCheck::Accepted) {
            Ok::<(), SignatureError>(())
        } else if checks@.len() > 0 && all_invalid(checks@) {
            Err(SignatureError::InvalidKey)
        } else {
            Err(SignatureError::NoMatchingKey)
        },
        result is Ok <==> exists|i: int|
            0 <= i < checks@.len() && #[trigger] checks@[i] == KeyCheck::Accepted,
        result == Err::<(), _>(SignatureError::InvalidKey) <==> checks@.len() > 0 && forall|i: int|
            0 <= i < checks@.len() ==> #[trigger] checks@[i] == KeyCheck::InvalidKey,
        result != Err::<(), _>(SignatureError::InvalidSignature),
{
    let mut any_valid = false;
    let mut i: usize = 0;
    while i < checks.len()
        invariant
            i <= checks@.len(),
            forall|j: int| 0 <= j < i ==> #[trigger] checks@[j] != KeyCheck::Accepted,
            any_valid <==> !all_invalid(checks@.take(i as int)),
        decreases checks@.len() - i,
    {
        if checks[i] == KeyCheck::Accepted {
            return Ok(());
        }
        proof {
            let before = checks@.take(i as int);
            let after = checks@.take(i + 1);
            assert(after =~= before.push(checks@[i as int]));
            assert(forall|j: int| 0 <= j < i ==> after[j] == before[j]);
            assert(after[i as int] == checks@[i as int]);
        }
        if checks[i] != KeyCheck::InvalidKey {
            any_valid = true;
        }
        i = i + 1;
    }
    assert(checks@.take(i as int) =~= checks@);
    if checks.len() > 0 && !any_valid {
        return Err(SignatureError::InvalidKey);
    }
    Err(SignatureError::NoMatchingKey)
}

/// Verify that the given binary was signed by one of the public keys of the
/// keyring.
///
/// The signature is verified against the SHA-256 hash of the binary content.
pub fn verify_binary(binary: &[u8], signature_bytes: &[u8], keyring: &[[u8; 32]]) -> (result:
    Result<(), SignatureError>)
    requires
        binary@.len() < SHA256_LENGTH_LIMIT,
    ensures
        result == binary_verdict(keyring@, binary@, signature_bytes@),
        result is Ok <==> signature_bytes@.len() == 64 && exists|i: int|
            0 <= i < keyring@.len() && ed25519_key_refusal(#[trigger] keyring@[i]@) is None
                && ed25519_refusal(keyring@[i]@, sha256_digest(binary@)@, signature_bytes@) is None,
        result == Err::<(), _>(SignatureError::InvalidSignature) <==> signature_bytes@.len() != 64,
        result == Err::<(), _>(SignatureError::InvalidKey) <==> signature_bytes@.len() == 64
            && keyring@.len() > 0 && forall|i: int|
            0 <= i < keyring@.len() ==> ed25519_key_refusal(#[trigger] keyring@[i]@) is Some,
{
    proof {
        law_verdict_is_of_some_key(keyring@, binary@, signature_bytes@);
    }
    let hash: [u8; 32] = sha256(binary);
    let signature: [u8; 64] = match signature_from_slice(signature_bytes) {
        Ok(signature) => signature,
        Err(_) => {
            return Err(SignatureError::InvalidSignature);
        },
    };
    let checks = check_keyring(keyring, hash.as_slice(), &signature);
    proof {
        if checks@.contains(KeyCheck::Accepted) {
            let i = choose|i: int| 0 <= i < checks@.len() && checks@[i] == KeyCheck::Accepted;
            assert(ed25519_accepts(keyring@[i]@, hash@, signature@));
        }
        if keyring_accepts(keyring@, hash@, signature@) {
            let i = choose|i: int|
                0 <= i < keyring@.len() && ed25519_accepts(
                    #[trigger] keyring@[i]@,
                    hash@,
                    signature@,
                );
            if checks@.len() == keyring@.len() {
                assert(checks@[i] == KeyCheck::Accepted);
            }
        }
        if !checks@.contains(KeyCheck::Accepted) {
            assert(checks@.len() == keyring@.len());
            assert forall|i: int| 0 <= i < keyring@.len() implies (checks@[i]
                == KeyCheck::InvalidKey <==> !ed25519_key_valid(#[trigger] keyring@[i]@)) by {}
            assert(all_invalid(checks@) <==> no_valid_key(keyring@));
        }
    }
    keyring_verdict(checks.as_slice())
}

/// One hexadecimal digit, letters in lower case.
pub open spec fn is_hex_digit(c: char) -> bool {
    '0' <= c <= '9' || 'a' <= c <= 'f'
}

/// The text consists of hexadecimal digits, letters in lower case.
pub open spec fn is_hex_text(text: Seq<char>) -> bool {
    forall|i: int| 0 <= i < text.len() ==> is_hex_digit(#[trigger] text[i])
}

/// The SHA-256 hash of `data` in hexadecimal.
pub open spec fn sha256_text(data: Seq<u8>) -> Seq<char> {
    hex_text(sha256_digest(data)@)
}

/// Writes a hash in hexadecimal.
pub fn digest_hex(digest: &[u8; 32]) -> (text: String)
    ensures
        text@ == hex_text(digest@),
{
    hex_encode(digest.as_slice())
}

/// Compute the SHA-256 hash of binary content, returned as a hex string.
pub fn sha256_hex(data: &[u8]) -> (text: String)
    requires
        data@.len() < SHA256_LENGTH_LIMIT,
    ensures
        text@ == sha256_text(data@),
        text@.len() == 64,
        is_hex_text(text@),
{
    proof {
        law_hash_is_64_hex_digits(data@);
    }
    let digest: [u8; 32] = sha256(data);
    digest_hex(&digest)
}

/// A signature that one key of the keyring accepts is enough, whatever else the
/// keyring holds.
pub proof fn law_one_accepting_key_is_enough(
    keyring: Seq<[u8; 32]>,
    i: int,
    binary: Seq<u8>,
    signature: Seq<u8>,
)
    requires
        0 <= i < keyring.len(),
        signature.len() == 64,
        ed25519_accepts(keyring[i]@, sha256_digest(binary)@, signature),
    ensures
        binary_verdict(keyring, binary, signature) is Ok,
{
}

/// Every hash is written as 64 hexadecimal digits, letters in lower case.
pub proof fn law_hash_is_64_hex_digits(data: Seq<u8>)
    ensures
        sha256_text(data).len() == 64,
        is_hex_text(sha256_text(data)),
{
    let text = sha256_text(data);
    assert forall|i: int| 0 <= i < text.len() implies is_hex_digit(#[trigger] text[i]) by {
        let byte = sha256_digest(data)@[i / 2];
        assert(0 <= byte as int / 16 < 16);
        assert(0 <= byte as int % 16 < 16);
    }
}

/// A keyring is reported as invalid exactly when the signature has the right
/// length and the keyring holds entries, none of which is a public key.
pub proof fn law_keyring_without_keys_is_reported(
    keyring: Seq<[u8; 32]>,
    binary: Seq<u8>,
    signature: Seq<u8>,
)
    ensures
        binary_verdict(keyring, binary, signature) == Err::<(), _>(SignatureError::InvalidKey)
            <==> signature.len() == 64 && keyring.len() > 0 && no_valid_key(keyring),
{
}

/// An entry of the keyring that is not a public key makes no binary accepted or
/// refused, and where it is not the only entry it changes nothing in the error
/// either.
pub proof fn law_invalid_key_is_passed_over(
    keyring: Seq<[u8; 32]>,
    i: int,
    binary: Seq<u8>,
    signature: Seq<u8>,
)
    requires
        0 <= i < keyring.len(),
        !ed25519_key_valid(keyring[i]@),
    ensures
        binary_verdict(keyring, binary, signature) is Ok <==> binary_verdict(
            keyring.remove(i),
            binary,
            signature,
        ) is Ok,
        keyring.len() > 1 || signature.len() != 64 ==> binary_verdict(keyring, binary, signature)
            == binary_verdict(keyring.remove(i), binary, signature),
{
    let rest = keyring.remove(i);
    let message = sha256_digest(binary)@;
    if keyring_accepts(keyring, message, signature) {
        let j = choose|j: int|
            0 <= j < keyring.len() && ed25519_accepts(#[trigger] keyring[j]@, message, signature);
        if j < i {
            assert(rest[j] == keyring[j]);
        } else {
            assert(rest[j - 1] == keyring[j]);
        }
    }
    if keyring_accepts(rest, message, signature) {
        let j = choose|j: int|
            0 <= j < rest.len() && ed25519_accepts(#[trigger] rest[j]@, message, signature);
        if j < i {
            assert(keyring[j] == rest[j]);
        } else {
            assert(keyring[j + 1] == rest[j]);
        }
    }
    if no_valid_key(keyring) {
        assert forall|j: int| 0 <= j < rest.len() implies !ed25519_key_valid(
            #[trigger] rest[j]@,
        ) by {
            assert(rest[j] == keyring[if j < i { j } else { j + 1 }]);
        }
    }
    if no_valid_key(rest) {
        assert forall|j: int| 0 <= j < keyring.len() implies !ed25519_key_valid(
            #[trigger] keyring[j]@,
        ) by {
            if j < i {
                assert(rest[j] == keyring[j]);
            } else if j > i {
                assert(rest[j - 1] == keyring[j]);
            }
        }
    }
}

/// The verdict depends on a binary only through its SHA-256 hash.
pub proof fn law_verdict_depends_on_the_hash(
    keyring: Seq<[u8; 32]>,
    binary1: Seq<u8>,
    binary2: Seq<u8>,
    signature: Seq<u8>,
)
    requires
        sha256_text(binary1) == sha256_text(binary2),
    ensures
        binary_verdict(keyring, binary1, signature) == binary_verdict(keyring, binary2, signature),
{
    law_hex_is_unambiguous(sha256_digest(binary1)@, sha256_digest(binary2)@);
}

/// On a keyring of any length a binary is taken as signed exactly when the
/// signature has 64 bytes and some entry is a public key that accepts it as a
/// signature of the SHA-256 hash of the binary. A signature of another length is
/// invalid; otherwise a keyring that holds entries, all of which are refused as
/// keys, is reported, and in every other case no key matches.
pub proof fn law_verdict_is_of_some_key(
    keyring: Seq<[u8; 32]>,
    binary: Seq<u8>,
    signature: Seq<u8>,
)
    ensures
        binary_verdict(keyring, binary, signature) is Ok <==> signature.len() == 64 && exists|
            i: int,
        |
            0 <= i < keyring.len() && ed25519_key_refusal(#[trigger] keyring[i]@) is None
                && ed25519_refusal(keyring[i]@, sha256_digest(binary)@, signature) is None,
        binary_verdict(keyring, binary, signature) == Err::<(), _>(
            SignatureError::InvalidSignature,
        ) <==> signature.len() != 64,
        binary_verdict(keyring, binary, signature) == Err::<(), _>(SignatureError::InvalidKey)
            <==> signature.len() == 64 && keyring.len() > 0 && forall|i: int|
            0 <= i < keyring.len() ==> ed25519_key_refusal(#[trigger] keyring[i]@) is Some,
{
    let message = sha256_digest(binary)@;
    if signature.len() == 64 {
        if keyring_accepts(keyring, message, signature) {
            let i = choose|i: int|
                0 <= i < keyring.len() && ed25519_accepts(
                    #[trigger] keyring[i]@,
                    message,
                    signature,
                );
            assert(ed25519_key_refusal(keyring[i]@) is None);
        }
        if exists|i: int|
            0 <= i < keyring.len() && ed25519_key_refusal(#[trigger] keyring[i]@) is None
                && ed25519_refusal(keyring[i]@, message, signature) is None {
            let i = choose|i: int|
                0 <= i < keyring.len() && ed25519_key_refusal(#[trigger] keyring[i]@) is None
                    && ed25519_refusal(keyring[i]@, message, signature) is None;
            assert(ed25519_accepts(keyring[i]@, message, signature));
        }
        if no_valid_key(keyring) {
            assert forall|i: int| 0 <= i < keyring.len() implies ed25519_key_refusal(
                #[trigger] keyring[i]@,
            ) is Some by {
                assert(!ed25519_key_valid(keyring[i]@));
            }
        }
    }
}

/// Two keyrings put together accept what one of them accepts, and nothing else;
/// a keyring without entries accepts nothing.
pub proof fn law_keyrings_together(
    first: Seq<[u8; 32]>,
    second: Seq<[u8; 32]>,
    binary: Seq<u8>,
    signature: Seq<u8>,
)
    ensures
        binary_verdict(first + second, binary, signature) is Ok <==> binary_verdict(
            first,
            binary,
            signature,
        ) is Ok || binary_verdict(second, binary, signature) is Ok,
        binary_verdict(seq![], binary, signature) is Err,
{
    let both = first + second;
    let message = sha256_digest(binary)@;
    if keyring_accepts(both, message, signature) {
        let i = choose|i: int|
            0 <= i < both.len() && ed25519_accepts(#[trigger] both[i]@, message, signature);
        if i < first.len() {
            assert(first[i] == both[i]);
        } else {
            assert(second[i - first.len()] == both[i]);
        }
    }
    if keyring_accepts(first, message, signature) {
        let i = choose|i: int|
            0 <= i < first.len() && ed25519_accepts(#[trigger] first[i]@, message, signature);
        assert(both[i] == first[i]);
    }
    if keyring_accepts(second, message, signature) {
        let i = choose|i: int|
            0 <= i < second.len() && ed25519_accepts(#[trigger] second[i]@, message, signature);
        assert(both[first.len() + i] == second[i]);
    }
}

/// An entry that is refused as a key is no key; a key accepts a signature or
/// refuses it.
pub proof fn law_check_of_one_key(key: Seq<u8>, message: Seq<u8>, signature: Seq<u8>)
    ensures
        key_check(key, message, signature) == KeyCheck::InvalidKey <==> ed25519_key_refusal(key)
            is Some,
        key_check(key, message, signature) == KeyCheck::Accepted <==> ed25519_key_refusal(key)
            is None && ed25519_refusal(key, message, signature) is None,
{
}

/// The text of a hash has two characters for each of its 32 bytes, the digit of
/// the sixteens and the digit of the ones; a hexadecimal digit is one of the
/// sixteen characters that such a text is made of.
pub proof fn law_hash_text_is_of_the_hash(data: Seq<u8>, i: int, text: Seq<char>)
    requires
        0 <= i < 32,
    ensures
        sha256_text(data).len() == 64,
        sha256_text(data)[2 * i] == "0123456789abcdef"@[sha256_digest(data)@[i] as int / 16],
        sha256_text(data)[2 * i + 1] == "0123456789abcdef"@[sha256_digest(data)@[i] as int % 16],
        is_hex_text(text) <==> forall|j: int|
            0 <= j < text.len() ==> "0123456789abcdef"@.contains(#[trigger] text[j]),
{
    law_hex_digits(sha256_digest(data)@, i);
    reveal_strlit("0123456789abcdef");
    let digits = "0123456789abcdef"@;
    assert forall|c: char| is_hex_digit(c) <==> #[trigger] digits.contains(c) by {
        if is_hex_digit(c) {
            let at = if c <= '9' { c as int - 48 } else { c as int - 87 };
            assert(digits[at] == c);
        }
    }
    if is_hex_text(text) {
        assert forall|j: int| 0 <= j < text.len() implies digits.contains(#[trigger] text[j]) by {
            assert(is_hex_digit(text[j]));
        }
    }
}

/// The texts of the errors.
pub proof fn law_signature_error_texts()
    ensures
        SignatureError::InvalidSignature.text() == "Invalid signature format"@,
        SignatureError::InvalidKey.text() == "Invalid public key in keyring"@,
        SignatureError::NoMatchingKey.text() == "Signature does not match any key in the keyring"@,
{
}

} // verus!
