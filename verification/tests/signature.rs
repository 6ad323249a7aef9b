use driver_update::cache::FileStep;
use driver_update::path::FilePath;
use driver_update::sign_driver::{
    generate_keypair, keypair_files, keypair_steps, parse_command, parse_private_key, parse_public_key,
    parse_signature, sign_binary, signed_binary, verification_report, Command, ToolError,
};
use driver_update::sign_driver;
use driver_update::signature::{
    check_keyring, digest_hex, keyring_verdict, sha256_hex, verify_binary, KeyCheck, PublicKey,
    SignatureError,
};

const SECRET: &str = "9d61b19deffd5a60ba844af492ec2cc44449c5697b326919703bac031cae7f60";
const PUBLIC: &str = "d75a980182b10ab7d54bfed3c964073a0ee172f3daa62325af021a68f707511a";
const BINARY: &[u8] = b"driver binary";
const HASH: &str = "14e00ee24316c00b40dcf60983f4f56ce93e8aa129932d3a1fb6afa2dc7e3008";
const SIGNATURE: &str = "481d8c714e86837684041c72eb06dd24c40df021f84b632a46043213517764d8\
f00cfd806162bf402ec892e7341e9152c04c007d667eb03029691121ee3fa509";

fn bytes_32(text: &str) -> [u8; 32] {
    hex::decode(text).unwrap().try_into().unwrap()
}

fn signature() -> [u8; 64] {
    hex::decode(SIGNATURE).unwrap().try_into().unwrap()
}

/// Not the encoding of a point of the curve.
fn invalid_key() -> [u8; 32] {
    let mut key = [0u8; 32];
    key[0] = 2;
    key
}

#[test]
fn hash_in_hexadecimal() {
    assert_eq!(
        sha256_hex(b"abc"),
        "ba7816bf8f01cfea414140de5dae2223b00361a396177a9cb410ff61f20015ad"
    );
    assert_eq!(
        sha256_hex(b""),
        "e3b0c44298fc1c149afbf4c8996fb92427ae41e4649b934ca495991b7852b855"
    );
    assert_eq!(sha256_hex(BINARY), HASH);
    assert_eq!(digest_hex(&bytes_32(HASH)), HASH);
    assert_eq!(sha256_hex(BINARY).len(), 64);
}

#[test]
fn signed_binary_is_accepted() {
    assert_eq!(verify_binary(BINARY, &signature(), &[bytes_32(PUBLIC)]), Ok(()));
}

#[test]
fn any_key_of_the_keyring_is_enough() {
    let keyring = [invalid_key(), bytes_32(SECRET), bytes_32(PUBLIC)];
    assert_eq!(verify_binary(BINARY, &signature(), &keyring), Ok(()));
    assert_eq!(
        verify_binary(BINARY, &signature(), &[invalid_key(), generate_keypair("k").public]),
        Err(SignatureError::NoMatchingKey)
    );
    assert_eq!(verify_binary(BINARY, &signature(), &[]), Err(SignatureError::NoMatchingKey));
}

#[test]
fn keyring_without_a_valid_key_is_reported() {
    for keyring in [&[invalid_key()][..], &[invalid_key(), invalid_key()][..]] {
        assert_eq!(
            verify_binary(BINARY, &signature(), keyring),
            Err(SignatureError::InvalidKey)
        );
        assert_eq!(
            verify_binary(BINARY, &signature()[..63], keyring),
            Err(SignatureError::InvalidSignature)
        );
    }
}

#[test]
fn altered_binary_or_signature_is_refused() {
    let keyring = [bytes_32(PUBLIC)];
    assert_eq!(
        verify_binary(b"driver binarz", &signature(), &keyring),
        Err(SignatureError::NoMatchingKey)
    );
    let mut altered = signature();
    altered[0] ^= 1;
    assert_eq!(
        verify_binary(BINARY, &altered, &keyring),
        Err(SignatureError::NoMatchingKey)
    );
}

#[test]
fn signature_of_other_length_is_invalid() {
    let keyring = [bytes_32(PUBLIC)];
    let mut long = signature().to_vec();
    long.push(0);
    for bytes in [&signature()[..63], &long[..], &[][..]] {
        assert_eq!(
            verify_binary(BINARY, bytes, &keyring),
            Err(SignatureError::InvalidSignature)
        );
    }
}

#[test]
fn keyring_is_checked_up_to_the_first_match() {
    let hash = bytes_32(HASH);
    let keyring = [invalid_key(), bytes_32(PUBLIC), invalid_key()];
    assert_eq!(
        check_keyring(&keyring, &hash, &signature()),
        vec![KeyCheck::InvalidKey, KeyCheck::Accepted]
    );
    let other = generate_keypair("k").public;
    assert_eq!(
        check_keyring(&[other, invalid_key()], &hash, &signature()),
        vec![KeyCheck::Refused, KeyCheck::InvalidKey]
    );
}

#[test]
fn verdict_of_a_keyring() {
    assert_eq!(keyring_verdict(&[KeyCheck::Refused, KeyCheck::Accepted]), Ok(()));
    assert_eq!(
        keyring_verdict(&[KeyCheck::Refused, KeyCheck::InvalidKey]),
        Err(SignatureError::NoMatchingKey)
    );
    assert_eq!(
        keyring_verdict(&[KeyCheck::InvalidKey, KeyCheck::Refused]),
        Err(SignatureError::NoMatchingKey)
    );
    assert_eq!(keyring_verdict(&[KeyCheck::InvalidKey, KeyCheck::Accepted]), Ok(()));
    assert_eq!(
        keyring_verdict(&[KeyCheck::InvalidKey, KeyCheck::InvalidKey]),
        Err(SignatureError::InvalidKey)
    );
    assert_eq!(keyring_verdict(&[]), Err(SignatureError::NoMatchingKey));
}

#[test]
fn messages_of_signature_errors() {
    assert_eq!(SignatureError::InvalidSignature.message(), "Invalid signature format");
    assert_eq!(SignatureError::InvalidKey.message(), "Invalid public key in keyring");
    assert_eq!(
        SignatureError::NoMatchingKey.message(),
        "Signature does not match any key in the keyring"
    );
}

#[test]
fn public_key_keeps_its_bytes() {
    let key = PublicKey::from_bytes(&bytes_32(PUBLIC)).unwrap();
    assert_eq!(key.to_bytes(), bytes_32(PUBLIC));
    assert_eq!(
        PublicKey::from_bytes(&invalid_key()),
        Err("signature::Error { source: Some(Cannot decompress Edwards point) }".to_string())
    );
}

#[test]
fn commands_of_the_tool() {
    let parse = |args: &[&str]| {
        let args: Vec<String> = args.iter().map(|arg| arg.to_string()).collect();
        parse_command(&args)
    };
    assert_eq!(parse(&[]), Command::Help);
    assert_eq!(parse(&["sign-driver"]), Command::Help);
    assert_eq!(parse(&["sign-driver", "other", "x"]), Command::Help);
    assert_eq!(
        parse(&["sign-driver", "generate-keypair", "keys/release"]),
        Command::GenerateKeypair { prefix: "keys/release".to_string() }
    );
    assert_eq!(parse(&["sign-driver", "generate-keypair"]), Command::GenerateKeypairUsage);
    assert_eq!(
        parse(&["sign-driver", "sign", "k.key", "d.so"]),
        Command::Sign { key_path: "k.key".to_string(), binary_path: "d.so".to_string() }
    );
    assert_eq!(parse(&["sign-driver", "sign", "k.key"]), Command::SignUsage);
    assert_eq!(
        parse(&["sign-driver", "verify", "k.pub", "d.so", "d.so.sig"]),
        Command::Verify {
            pub_path: "k.pub".to_string(),
            binary_path: "d.so".to_string(),
            sig_path: "d.so.sig".to_string()
        }
    );
    assert_eq!(parse(&["sign-driver", "verify", "k.pub", "d.so"]), Command::VerifyUsage);
}

#[test]
fn files_of_other_lengths_are_refused() {
    assert_eq!(parse_private_key(&[7; 31]), Err(ToolError::PrivateKeyLength { got: 31 }));
    assert_eq!(parse_private_key(&[7; 32]), Ok([7; 32]));
    assert_eq!(parse_public_key(&[7; 100]), Err(ToolError::PublicKeyLength { got: 100 }));
    assert_eq!(
        parse_public_key(&invalid_key()),
        Err(ToolError::InvalidPublicKey {
            reason: "signature::Error { source: Some(Cannot decompress Edwards point) }".to_string()
        })
    );
    assert_eq!(parse_signature(&[]), Err(ToolError::SignatureLength { got: 0 }));
    assert_eq!(parse_signature(&signature()), Ok(signature()));
}

#[test]
fn messages_of_the_tool() {
    assert_eq!(
        ToolError::PrivateKeyLength { got: 31 }.message(),
        "Private key must be exactly 32 bytes, got 31"
    );
    assert_eq!(
        ToolError::PublicKeyLength { got: 0 }.message(),
        "Public key must be exactly 32 bytes, got 0"
    );
    assert_eq!(
        ToolError::SignatureLength { got: 1064 }.message(),
        "Signature must be exactly 64 bytes, got 1064"
    );
    assert_eq!(
        ToolError::InvalidPublicKey { reason: "off the curve".to_string() }.message(),
        "Invalid public key: off the curve"
    );
}

#[test]
fn tool_signs_a_binary() {
    let key = parse_private_key(&bytes_32(SECRET)).unwrap();
    let signed = sign_binary(&key, "out/d.so", BINARY);
    assert_eq!(signed.sig_path, "out/d.so.sig");
    assert_eq!(signed.signature, signature());
    assert_eq!(
        signed.report,
        vec![
            "Signed: out/d.so".to_string(),
            format!("  SHA-256: {HASH}"),
            "  Signature: out/d.so.sig".to_string(),
        ]
    );
}

#[test]
fn tool_verifies_a_binary() {
    let key = parse_public_key(&bytes_32(PUBLIC)).unwrap();
    assert_eq!(
        sign_driver::verify_binary(&key, BINARY, &signature()),
        Ok(vec!["Signature VALID".to_string(), format!("  SHA-256: {HASH}")])
    );
    let refused = sign_driver::verify_binary(&key, b"other", &signature()).unwrap_err();
    assert_eq!(
        refused,
        "Signature INVALID: signature error: Verification equation was not satisfied"
    );
}

#[test]
fn reports_of_the_tool() {
    let signed = signed_binary("d.so", &[0xab; 32], [1; 64]);
    assert_eq!(signed.report[1], format!("  SHA-256: {}", "ab".repeat(32)));
    assert_eq!(
        verification_report(&[0; 32], Err("no".to_string())),
        Err("Signature INVALID: no".to_string())
    );
    let files = keypair_files("p", [1; 32], [0x0f; 32]);
    assert_eq!(files.key_path, "p.key");
    assert_eq!(files.pub_path, "p.pub");
    assert_eq!(files.secret, [1; 32]);
    assert_eq!(files.public, [0x0f; 32]);
    assert_eq!(
        files.report,
        vec![
            "Generated keypair:".to_string(),
            "  Private key: p.key".to_string(),
            "  Public key:  p.pub".to_string(),
            format!("  Public key hex: {}", "0f".repeat(32)),
        ]
    );
}

#[test]
fn private_key_is_written_first() {
    let files = keypair_files("keys/p", [1; 32], [2; 32]);
    assert_eq!(
        keypair_steps(&files),
        vec![
            FileStep::Write { path: FilePath::given(b"keys/p.key"), data: vec![1; 32] },
            FileStep::Write { path: FilePath::given(b"keys/p.pub"), data: vec![2; 32] },
        ]
    );
}

#[test]
fn generated_keypair_signs_and_verifies() {
    let files = generate_keypair("release");
    assert_eq!(files.key_path, "release.key");
    assert_ne!(files.secret, files.public);
    assert_ne!(files.secret, generate_keypair("release").secret);

    let signed = sign_binary(&files.secret, "d.so", BINARY);
    assert_eq!(verify_binary(BINARY, &signed.signature, &[files.public]), Ok(()));
    let key = parse_public_key(&files.public).unwrap();
    assert!(sign_driver::verify_binary(&key, BINARY, &signed.signature).is_ok());
    assert_eq!(
        verify_binary(BINARY, &signed.signature, &[bytes_32(PUBLIC)]),
        Err(SignatureError::NoMatchingKey)
    );
}

#[test]
fn tool_and_host_agree() {
    let key = parse_public_key(&bytes_32(PUBLIC)).unwrap();
    let mut altered = signature();
    altered[40] ^= 0x10;
    for (binary, signature) in
        [(BINARY, signature()), (BINARY, altered), (b"other", signature()), (BINARY, [0; 64])]
    {
        assert_eq!(
            sign_driver::verify_binary(&key, binary, &signature).is_ok(),
            verify_binary(binary, &signature, &[key.to_bytes()]).is_ok()
        );
    }
}

#[test]
fn different_hashes_differ_in_hexadecimal() {
    let mut hash = bytes_32(HASH);
    let text = digest_hex(&hash);
    hash[31] ^= 1;
    assert_ne!(digest_hex(&hash), text);
    hash[31] ^= 0x11;
    assert_ne!(digest_hex(&hash), text);
}
