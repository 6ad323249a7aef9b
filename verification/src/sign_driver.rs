//! The signing tool for driver binaries: it makes key pairs, signs binaries and
//! verifies signatures.
//!
//! The files are read and written, and the reports printed, by the program
//! around this module.

use vstd::prelude::*;
use vstd::slice::slice_to_vec;
use vstd::utf8::encode_utf8;

use crate::cache::{ops_of, FileOp, FileStep};
use crate::crypto::{
    ed25519_accepts, ed25519_key_refusal, ed25519_key_valid, ed25519_public, ed25519_public_key,
    ed25519_refusal, ed25519_sign, ed25519_signature, random_secret_key, sha256, sha256_digest,
    SHA256_LENGTH_LIMIT,
};
use crate::path::{FilePath, PathView};
use crate::signature::{binary_verdict, digest_hex, PublicKey, SignatureError};
use crate::text::{decimal, decimal_text, hex_text, join_text, lines_of};

verus! {

/// What the tool is asked to do.
#[derive(Debug, Clone, PartialEq, Eq)]
pub enum Command {
    /// Make a key pair and write it to `<prefix>.key` and `<prefix>.pub`.
    GenerateKeypair { prefix: String },
    /// Sign a binary.
    Sign { key_path: String, binary_path: String },
    /// Verify the signature of a binary.
    Verify { pub_path: String, binary_path: String, sig_path: String },
    /// `generate-keypair` came with the wrong number of arguments.
    GenerateKeypairUsage,
    /// `sign` came with the wrong number of arguments.
    SignUsage,
    /// `verify` came with the wrong number of arguments.
    VerifyUsage,
    /// There is no command, or it is not known.
    Help,
}

/// A [`Command`] with its texts as sequences of characters.
pub enum CommandView {
    GenerateKeypair { prefix: Seq<char> },
    Sign { key_path: Seq<char>, binary_path: Seq<char> },
    Verify { pub_path: Seq<char>, binary_path: Seq<char>, sig_path: Seq<char> },
    GenerateKeypairUsage,
    SignUsage,
    VerifyUsage,
    Help,
}

impl View for Command {
    type V = CommandView;

    open spec fn view(&self) -> CommandView {
        match self {
            Command::GenerateKeypair { prefix } =>
                CommandView::GenerateKeypair { prefix: prefix@ },
            Command::Sign { key_path, binary_path } =>
                CommandView::Sign { key_path: key_path@, binary_path: binary_path@ },
            Command::Verify { pub_path, binary_path, sig_path } =>
                CommandView::Verify {
                pub_path: pub_path@,
                binary_path: binary_path@,
                sig_path: sig_path@,
            },
            Command::GenerateKeypairUsage => CommandView::GenerateKeypairUsage,
            Command::SignUsage => CommandView::SignUsage,
            Command::VerifyUsage => CommandView::VerifyUsage,
            Command::Help => CommandView::Help,
        }
    }
}

/// What the arguments ask for; the first of them is the name of the program.
pub open spec fn command_of(args: Seq<String>) -> CommandView {
    if args.len() < 2 {
        CommandView::Help
    } else if args[1]@ == "generate-keypair"@ {
        if args.len() == 3 {
            CommandView::GenerateKeypair { prefix: args[2]@ }
        } else {
            CommandView::GenerateKeypairUsage
        }
    } else if args[1]@ == "sign"@ {
        if args.len() == 4 {
            CommandView::Sign { key_path: args[2]@, binary_path: args[3]@ }
        } else {
            CommandView::SignUsage
        }
    } else if args[1]@ == "verify"@ {
        if args.len() == 5 {
            CommandView::Verify {
                pub_path: args[2]@,
                binary_path: args[3]@,
                sig_path: args[4]@,
            }
        } else {
            CommandView::VerifyUsage
        }
    } else {
        CommandView::Help
    }
}

/// Reads the arguments of the tool; the first of them is the name of the program.
pub fn parse_command(args: &[String]) -> (command: Command)
    ensures
        command@ == command_of(args@),
        command is Help <==> args@.len() < 2 || (args@[1]@ != "generate-keypair"@ && args@[1]@
            != "sign"@ && args@[1]@ != "verify"@),
        args@.len() >= 2 && args@[1]@ == "generate-keypair"@ ==> if args@.len() == 3 {
            command matches Command::GenerateKeypair { prefix } && prefix@ == args@[2]@
        } else {
            command is GenerateKeypairUsage
        },
        args@.len() >= 2 && args@[1]@ == "sign"@ ==> if args@.len() == 4 {
            command matches Command::Sign { key_path, binary_path } && key_path@ == args@[2]@
                && binary_path@ == args@[3]@
        } else {
            command is SignUsage
        },
        args@.len() >= 2 && args@[1]@ == "verify"@ ==> if args@.len() == 5 {
            command matches Command::Verify { pub_path, binary_path, sig_path } && pub_path@
                == args@[2]@ && binary_path@ == args@[3]@ && sig_path@ == args@[4]@
        } else {
            command is VerifyUsage
        },
{
    proof {
        lemma_commands_differ();
    }
    if args.len() < 2 {
        return Command::Help;
    }
    if args[1] == "generate-keypair".to_owned() {
        if args.len() != 3 {
            return Command::GenerateKeypairUsage;
        }
        return Command::GenerateKeypair { prefix: args[2].clone() };
    }
    if args[1] == "sign".to_owned() {
        if args.len() != 4 {
            return Command::SignUsage;
        }
        return Command::Sign { key_path: args[2].clone(), binary_path: args[3].clone() };
    }
    if args[1] == "verify".to_owned() {
        if args.len() != 5 {
            return Command::VerifyUsage;
        }
        return Command::Verify {
            pub_path: args[2].clone(),
            binary_path: args[3].clone(),
            sig_path: args[4].clone(),
        };
    }
    Command::Help
}

/// Why the tool refuses the contents of a file.
#[derive(Debug, Clone, PartialEq, Eq)]
pub enum ToolError {
    /// A private key does not have 32 bytes but this many.
    PrivateKeyLength { got: usize },
    /// A public key does not have 32 bytes but this many.
    PublicKeyLength { got: usize },
    /// 32 bytes are not a public key, for this reason.
    InvalidPublicKey { reason: String },
    /// A signature does not have 64 bytes but this many.
    SignatureLength { got: usize },
}

/// A [`ToolError`] with its text as a sequence of characters.
pub enum ToolErrorView {
    PrivateKeyLength { got: usize },
    PublicKeyLength { got: usize },
    InvalidPublicKey { reason: Seq<char> },
    SignatureLength { got: usize },
}

impl View for ToolError {
    type V = ToolErrorView;

    open spec fn view(&self) -> ToolErrorView {
        match self {
            ToolError::PrivateKeyLength { got } => ToolErrorView::PrivateKeyLength { got: *got },
            ToolError::PublicKeyLength { got } => ToolErrorView::PublicKeyLength { got: *got },
            ToolError::InvalidPublicKey { reason } =>
                ToolErrorView::InvalidPublicKey { reason: reason@ },
            ToolError::SignatureLength { got } => ToolErrorView::SignatureLength { got: *got },
        }
    }
}

impl ToolErrorView {
    /// The text of the error.
    pub open spec fn text(self) -> Seq<char> {
        match self {
            ToolErrorView::PrivateKeyLength { got } => "Private key must be exactly 32 bytes, got "@
                + decimal_text(got as nat),
            ToolErrorView::PublicKeyLength { got } => "Public key must be exactly 32 bytes, got "@
                + decimal_text(got as nat),
            ToolErrorView::InvalidPublicKey { reason } => "Invalid public key: "@ + reason,
            ToolErrorView::SignatureLength { got } => "Signature must be exactly 64 bytes, got "@
                + decimal_text(got as nat),
        }
    }
}

impl ToolError {
    /// The text of the error.
    pub fn message(&self) -> (text: String)
        ensures
            text@ == self@.text(),
    {
        match self {
            ToolError::PrivateKeyLength { got } => join_text(
                "Private key must be exactly 32 bytes, got ",
                decimal(*got as u64).as_str(),
            ),
            ToolError::PublicKeyLength { got } => join_text(
                "Public key must be exactly 32 bytes, got ",
                decimal(*got as u64).as_str(),
            ),
            ToolError::InvalidPublicKey { reason } => join_text(
                "Invalid public key: ",
                reason.as_str(),
            ),
            ToolError::SignatureLength { got } => join_text(
                "Signature must be exactly 64 bytes, got ",
                decimal(*got as u64).as_str(),
            ),
        }
    }
}

fn array_32(bytes: &[u8]) -> (array: [u8; 32])
    requires
        bytes@.len() == 32,
    ensures
        array@ == bytes@,
{
    let mut array: [u8; 32] = [0u8; 32];
    let mut i: usize = 0;
    while i < 32
        invariant
            i <= 32,
            bytes@.len() == 32,
            forall|j: int| 0 <= j < i ==> array@[j] == bytes@[j],
        decreases 32 - i,
    {
        array[i] = bytes[i];
        i = i + 1;
    }
    assert(array@ =~= bytes@);
    array
}

fn array_64(bytes: &[u8]) -> (array: [u8; 64])
    requires
        bytes@.len() == 64,
    ensures
        array@ == bytes@,
{
    let mut array: [u8; 64] = [0u8; 64];
    let mut i: usize = 0;
    while i < 64
        invariant
            i <= 64,
            bytes@.len() == 64,
            forall|j: int| 0 <= j < i ==> array@[j] == bytes@[j],
        decreases 64 - i,
    {
        array[i] = bytes[i];
        i = i + 1;
    }
    assert(array@ =~= bytes@);
    array
}

/// Takes the contents of a file as a private key.
pub fn parse_private_key(bytes: &[u8]) -> (result: Result<[u8; 32], ToolError>)
    ensures
        match result {
            Ok(key) => bytes@.len() == 32 && key@ == bytes@,
            Err(error) => bytes@.len() != 32 && error@ == (ToolErrorView::PrivateKeyLength {
                got: bytes@.len() as usize,
            }),
        },
        result is Ok <==> bytes@.len() == 32,
        bytes@.len() != 32 ==> (result matches Err(ToolError::PrivateKeyLength { got }) && got
            == bytes@.len()),
{
    if bytes.len() != 32 {
        return Err(ToolError::PrivateKeyLength { got: bytes.len() });
    }
    Ok(array_32(bytes))
}

/// Takes the contents of a file as a public key.
pub fn parse_public_key(bytes: &[u8]) -> (result: Result<PublicKey, ToolError>)
    ensures
        match result {
            Ok(key) => bytes@.len() == 32 && ed25519_key_valid(bytes@) && key@ == bytes@,
            Err(error) => if bytes@.len() != 32 {
                error@ == (ToolErrorView::PublicKeyLength { got: bytes@.len() as usize })
            } else {
                &&& !ed25519_key_valid(bytes@)
                &&& error@ matches ToolErrorView::InvalidPublicKey { reason }
                &&& ed25519_key_refusal(bytes@) == Some(reason)
            },
        },
        result is Ok <==> bytes@.len() == 32 && ed25519_key_refusal(bytes@) is None,
        bytes@.len() != 32 ==> (result matches Err(ToolError::PublicKeyLength { got }) && got
            == bytes@.len()),
        bytes@.len() == 32 && ed25519_key_refusal(bytes@) is Some ==> (result matches Err(
            ToolError::InvalidPublicKey { reason },
        ) && ed25519_key_refusal(bytes@) == Some(reason@)),
{
    if bytes.len() != 32 {
        return Err(ToolError::PublicKeyLength { got: bytes.len() });
    }
    let array: [u8; 32] = array_32(bytes);
    match PublicKey::from_bytes(&array) {
        Ok(key) => Ok(key),
        Err(reason) => Err(ToolError::InvalidPublicKey { reason }),
    }
}

/// Takes the contents of a file as a signature.
pub fn parse_signature(bytes: &[u8]) -> (result: Result<[u8; 64], ToolError>)
    ensures
        match result {
            Ok(signature) => bytes@.len() == 64 && signature@ == bytes@,
            Err(error) => bytes@.len() != 64 && error@ == (ToolErrorView::SignatureLength {
                got: bytes@.len() as usize,
            }),
        },
        result is Ok <==> bytes@.len() == 64,
        bytes@.len() != 64 ==> (result matches Err(ToolError::SignatureLength { got }) && got
            == bytes@.len()),
{
    if bytes.len() != 64 {
        return Err(ToolError::SignatureLength { got: bytes.len() });
    }
    Ok(array_64(bytes))
}

/// A key pair with the files to write it to.
pub struct KeypairFiles {
    pub key_path: String,
    pub pub_path: String,
    /// What to write to `key_path`.
    pub secret: [u8; 32],
    /// What to write to `pub_path`.
    pub public: [u8; 32],
    /// What to print once both files are written.
    pub report: Vec<String>,
}

/// `files` are those of a key pair made with this prefix.
pub open spec fn is_keypair_of(
    files: KeypairFiles,
    prefix: Seq<char>,
    secret: Seq<u8>,
    public: Seq<u8>,
) -> bool {
    &&& files.key_path@ == prefix + ".key"@
    &&& files.pub_path@ == prefix + ".pub"@
    &&& files.secret@ == secret
    &&& files.public@ == public
    &&& lines_of(files.report@) == seq![
        "Generated keypair:"@,
        "  Private key: "@ + (prefix + ".key"@),
        "  Public key:  "@ + (prefix + ".pub"@),
        "  Public key hex: "@ + hex_text(public),
    ]
}

/// The files of a key pair.
pub fn keypair_files(prefix: &str, secret: [u8; 32], public: [u8; 32]) -> (files: KeypairFiles)
    ensures
        is_keypair_of(files, prefix@, secret@, public@),
        files.key_path@ == prefix@ + ".key"@,
        files.pub_path@ == prefix@ + ".pub"@,
        files.secret@ == secret@,
        files.public@ == public@,
        files.report@.len() == 4,
        files.report@[0]@ == "Generated keypair:"@,
        files.report@[1]@ == "  Private key: "@ + prefix@ + ".key"@,
        files.report@[2]@ == "  Public key:  "@ + prefix@ + ".pub"@,
        files.report@[3]@ == "  Public key hex: "@ + hex_text(files.public@),
{
    let key_path = join_text(prefix, ".key");
    let pub_path = join_text(prefix, ".pub");
    let mut report: Vec<String> = Vec::new();
    report.push("Generated keypair:".to_owned());
    report.push(join_text("  Private key: ", key_path.as_str()));
    report.push(join_text("  Public key:  ", pub_path.as_str()));
    report.push(join_text("  Public key hex: ", digest_hex(&public).as_str()));
    assert(lines_of(report@) =~= seq![
        "Generated keypair:"@,
        "  Private key: "@ + (prefix@ + ".key"@),
        "  Public key:  "@ + (prefix@ + ".pub"@),
        "  Public key hex: "@ + hex_text(public@),
    ]);
    let files = KeypairFiles { key_path, pub_path, secret, public, report };
    proof {
        law_keypair_goes_to_its_files(files, prefix@, secret@, public@);
    }
    files
}

/// Makes a key pair. The secret key is drawn at random; the public key is the one
/// that belongs to it.
pub fn generate_keypair(prefix: &str) -> (files: KeypairFiles)
    ensures
        is_keypair_of(files, prefix@, files.secret@, ed25519_public_key(files.secret@)),
        ed25519_key_valid(files.public@),
        files.key_path@ == prefix@ + ".key"@,
        files.pub_path@ == prefix@ + ".pub"@,
        files.public@ == ed25519_public_key(files.secret@),
        ed25519_key_refusal(files.public@) is None,
        files.report@.len() == 4,
        files.report@[0]@ == "Generated keypair:"@,
        files.report@[1]@ == "  Private key: "@ + prefix@ + ".key"@,
        files.report@[2]@ == "  Public key:  "@ + prefix@ + ".pub"@,
        files.report@[3]@ == "  Public key hex: "@ + hex_text(files.public@),
{
    let secret: [u8; 32] = random_secret_key();
    let public: [u8; 32] = ed25519_public(&secret);
    keypair_files(prefix, secret, public)
}

/// What writes a key pair: the private key first, so that there is no public key
/// whose private key could not be written.
pub open spec fn keypair_ops(files: KeypairFiles) -> Seq<FileOp> {
    seq![
        FileOp::Write {
            path: PathView::given(encode_utf8(files.key_path@)),
            data: files.secret@,
        },
        FileOp::Write {
            path: PathView::given(encode_utf8(files.pub_path@)),
            data: files.public@,
        },
    ]
}

/// The steps that write a key pair.
pub fn keypair_steps(files: &KeypairFiles) -> (steps: Vec<FileStep>)
    ensures
        ops_of(steps@) == keypair_ops(*files),
        steps@.len() == 2,
        steps@[0] matches FileStep::Write { path, data } && path@ == PathView::given(
            encode_utf8(files.key_path@),
        ) && data@ == files.secret@,
        steps@[1] matches FileStep::Write { path, data } && path@ == PathView::given(
            encode_utf8(files.pub_path@),
        ) && data@ == files.public@,
{
    let mut steps: Vec<FileStep> = Vec::new();
    steps.push(
        FileStep::Write {
            path: FilePath::given(files.key_path.as_str().as_bytes()),
            data: slice_to_vec(files.secret.as_slice()),
        },
    );
    steps.push(
        FileStep::Write {
            path: FilePath::given(files.pub_path.as_str().as_bytes()),
            data: slice_to_vec(files.public.as_slice()),
        },
    );
    assert(ops_of(steps@) =~= keypair_ops(*files));
    steps
}

/// A signature with the file to write it to.
#[derive(Debug)]
pub struct SignedBinary {
    pub sig_path: String,
    /// What to write to `sig_path`.
    pub signature: [u8; 64],
    /// What to print once the file is written.
    pub report: Vec<String>,
}

/// `signed` is this signature of the binary at this path, which has this hash.
pub open spec fn is_signed(
    signed: SignedBinary,
    binary_path: Seq<char>,
    hash: Seq<u8>,
    signature: Seq<u8>,
) -> bool {
    &&& signed.sig_path@ == binary_path + ".sig"@
    &&& signed.signature@ == signature
    &&& lines_of(signed.report@) == seq![
        "Signed: "@ + binary_path,
        "  SHA-256: "@ + hex_text(hash),
        "  Signature: "@ + (binary_path + ".sig"@),
    ]
}

/// The file of a signature.
pub fn signed_binary(binary_path: &str, hash: &[u8; 32], signature: [u8; 64]) -> (signed:
    SignedBinary)
    ensures
        is_signed(signed, binary_path@, hash@, signature@),
        signed.sig_path@ == binary_path@ + ".sig"@,
        signed.signature@ == signature@,
        signed.report@.len() == 3,
        signed.report@[0]@ == "Signed: "@ + binary_path@,
        signed.report@[1]@ == "  SHA-256: "@ + hex_text(hash@),
        signed.report@[2]@ == "  Signature: "@ + binary_path@ + ".sig"@,
{
    let sig_path = join_text(binary_path, ".sig");
    let mut report: Vec<String> = Vec::new();
    report.push(join_text("Signed: ", binary_path));
    report.push(join_text("  SHA-256: ", digest_hex(hash).as_str()));
    report.push(join_text("  Signature: ", sig_path.as_str()));
    assert(lines_of(report@) =~= seq![
        "Signed: "@ + binary_path@,
        "  SHA-256: "@ + hex_text(hash@),
        "  Signature: "@ + (binary_path@ + ".sig"@),
    ]);
    let signed = SignedBinary { sig_path, signature, report };
    proof {
        law_signature_goes_next_to_the_binary(signed, binary_path@, hash@, signature@);
    }
    signed
}

/// Signs a binary: what is signed is its SHA-256 hash. Every keyring that holds
/// the public key of the private key takes the binary as signed.
pub fn sign_binary(key: &[u8; 32], binary_path: &str, binary: &[u8]) -> (signed: SignedBinary)
    requires
        binary@.len() < SHA256_LENGTH_LIMIT,
    ensures
        is_signed(
            signed,
            binary_path@,
            sha256_digest(binary@)@,
            ed25519_signature(key@, sha256_digest(binary@)@),
        ),
        signed.sig_path@ == binary_path@ + ".sig"@,
        signed.signature@ == ed25519_signature(key@, sha256_digest(binary@)@),
        signed.report@.len() == 3,
        signed.report@[0]@ == "Signed: "@ + binary_path@,
        signed.report@[1]@ == "  SHA-256: "@ + hex_text(sha256_digest(binary@)@),
        signed.report@[2]@ == "  Signature: "@ + binary_path@ + ".sig"@,
        ed25519_accepts(ed25519_public_key(key@), sha256_digest(binary@)@, signed.signature@),
        forall|keyring: Seq<[u8; 32]>, i: int|
            0 <= i < keyring.len() && #[trigger] keyring[i]@ == ed25519_public_key(key@)
                ==> binary_verdict(keyring, binary@, signed.signature@) == Ok::<
                (),
                SignatureError,
            >(()),
{
    let hash: [u8; 32] = sha256(binary);
    let signature: [u8; 64] = ed25519_sign(key, hash.as_slice());
    signed_binary(binary_path, &hash, signature)
}

/// What to report of a verification, given the hash of the binary and the text of
/// the error with which the signature was refused, if it was.
pub open spec fn is_verification_report(
    report: Result<Vec<String>, String>,
    hash: Seq<u8>,
    refusal: Option<Seq<char>>,
) -> bool {
    match refusal {
        None => report matches Ok(lines) && lines_of(lines@) == seq![
            "Signature VALID"@,
            "  SHA-256: "@ + hex_text(hash),
        ],
        Some(error) => report matches Err(line) && line@ == "Signature INVALID: "@ + error,
    }
}

/// The view of the error of a verification.
pub open spec fn refusal_of(outcome: Result<(), String>) -> Option<Seq<char>> {
    match outcome {
        Ok(_) => None,
        Err(error) => Some(error@),
    }
}

/// What to print of a verification.
pub fn verification_report(hash: &[u8; 32], outcome: Result<(), String>) -> (report: Result<
    Vec<String>,
    String,
>)
    ensures
        is_verification_report(report, hash@, refusal_of(outcome)),
        report is Ok <==> outcome is Ok,
        report matches Ok(lines) ==> lines@.len() == 2 && lines@[0]@ == "Signature VALID"@
            && lines@[1]@ == "  SHA-256: "@ + hex_text(hash@),
        outcome matches Err(error) ==> (report matches Err(line) && line@ == "Signature INVALID: "@
            + error@),
{
    match outcome {
        Ok(_) => {
            let mut lines: Vec<String> = Vec::new();
            lines.push("Signature VALID".to_owned());
            lines.push(join_text("  SHA-256: ", digest_hex(hash).as_str()));
            assert(lines_of(lines@) =~= seq![
                "Signature VALID"@,
                "  SHA-256: "@ + hex_text(hash@),
            ]);
            Ok(lines)
        },
        Err(error) => Err(join_text("Signature INVALID: ", error.as_str())),
    }
}

/// Verifies the signature of a binary against its SHA-256 hash. Gives the lines
/// to print where the signature is valid, and the line of the error where it is
/// not.
pub fn verify_binary(key: &PublicKey, binary: &[u8], signature: &[u8; 64]) -> (report: Result<
    Vec<String>,
    String,
>)
    requires
        binary@.len() < SHA256_LENGTH_LIMIT,
    ensures
        report is Ok <==> ed25519_accepts(key@, sha256_digest(binary@)@, signature@),
        report is Ok <==> ed25519_refusal(key@, sha256_digest(binary@)@, signature@) is None,
        report matches Ok(lines) ==> lines@.len() == 2 && lines@[0]@ == "Signature VALID"@
            && lines@[1]@ == "  SHA-256: "@ + hex_text(sha256_digest(binary@)@),
        report matches Err(line) ==> ed25519_refusal(key@, sha256_digest(binary@)@, signature@)
            is Some && line@ == "Signature INVALID: "@ + ed25519_refusal(
            key@,
            sha256_digest(binary@)@,
            signature@,
        )->0,
        is_verification_report(
            report,
            sha256_digest(binary@)@,
            ed25519_refusal(key@, sha256_digest(binary@)@, signature@),
        ),
{
    let hash: [u8; 32] = sha256(binary);
    verification_report(&hash, key.verify(hash.as_slice(), signature))
}

/// The tool finds a signature valid under a key exactly when the host takes the
/// binary as signed on a keyring of that key alone.
pub proof fn law_tool_and_host_agree(key: [u8; 32], binary: Seq<u8>, signature: Seq<u8>)
    requires
        signature.len() == 64,
    ensures
        ed25519_accepts(key@, sha256_digest(binary)@, signature) <==> binary_verdict(
            seq![key],
            binary,
            signature,
        ) is Ok,
{
    assert(seq![key][0] == key);
}

/// The names of the commands are different.
proof fn lemma_commands_differ()
    ensures
        "generate-keypair"@ != "sign"@,
        "generate-keypair"@ != "verify"@,
        "sign"@ != "verify"@,
{
    reveal_strlit("generate-keypair");
    reveal_strlit("sign");
    reveal_strlit("verify");
    assert("generate-keypair"@.len() == 16 && "sign"@.len() == 4 && "verify"@.len() == 6);
}

/// The first argument behind the name of the program chooses the command, the
/// number of arguments decides whether it can be run, and the arguments go to it in
/// the order in which they stand.
pub proof fn law_command_of_arguments(args: Seq<String>)
    ensures
        command_of(args) == CommandView::Help <==> args.len() < 2 || (args[1]@
            != "generate-keypair"@ && args[1]@ != "sign"@ && args[1]@ != "verify"@),
        args.len() == 3 && args[1]@ == "generate-keypair"@ ==> command_of(args) == (
        CommandView::GenerateKeypair { prefix: args[2]@ }),
        args.len() == 4 && args[1]@ == "sign"@ ==> command_of(args) == (CommandView::Sign {
            key_path: args[2]@,
            binary_path: args[3]@,
        }),
        args.len() == 5 && args[1]@ == "verify"@ ==> command_of(args) == (CommandView::Verify {
            pub_path: args[2]@,
            binary_path: args[3]@,
            sig_path: args[4]@,
        }),
        args.len() >= 2 && args.len() != 3 && args[1]@ == "generate-keypair"@ ==> command_of(args)
            == CommandView::GenerateKeypairUsage,
        args.len() >= 2 && args.len() != 4 && args[1]@ == "sign"@ ==> command_of(args)
            == CommandView::SignUsage,
        args.len() >= 2 && args.len() != 5 && args[1]@ == "verify"@ ==> command_of(args)
            == CommandView::VerifyUsage,
{
    lemma_commands_differ();
}

/// The view of a command is the same command with the same texts, each in its
/// place.
pub proof fn law_command_view(first: String, second: String, third: String)
    ensures
        (Command::GenerateKeypair { prefix: first })@ == (CommandView::GenerateKeypair {
            prefix: first@,
        }),
        (Command::Sign { key_path: first, binary_path: second })@ == (CommandView::Sign {
            key_path: first@,
            binary_path: second@,
        }),
        (Command::Verify { pub_path: first, binary_path: second, sig_path: third })@ == (
        CommandView::Verify { pub_path: first@, binary_path: second@, sig_path: third@ }),
        Command::GenerateKeypairUsage@ == CommandView::GenerateKeypairUsage,
        Command::SignUsage@ == CommandView::SignUsage,
        Command::VerifyUsage@ == CommandView::VerifyUsage,
        Command::Help@ == CommandView::Help,
{
}

/// The errors of the tool name what is wrong and the number of bytes, or the
/// reason, that it is wrong for; their views have the same.
pub proof fn law_tool_error_texts(got: usize, reason: String)
    ensures
        (ToolError::PrivateKeyLength { got })@.text() == "Private key must be exactly 32 bytes, got "@
            + decimal_text(got as nat),
        (ToolError::PublicKeyLength { got })@.text() == "Public key must be exactly 32 bytes, got "@
            + decimal_text(got as nat),
        (ToolError::SignatureLength { got })@.text() == "Signature must be exactly 64 bytes, got "@
            + decimal_text(got as nat),
        (ToolError::InvalidPublicKey { reason })@.text() == "Invalid public key: "@ + reason@,
        (ToolError::PrivateKeyLength { got })@ == (ToolErrorView::PrivateKeyLength { got }),
        (ToolError::PublicKeyLength { got })@ == (ToolErrorView::PublicKeyLength { got }),
        (ToolError::SignatureLength { got })@ == (ToolErrorView::SignatureLength { got }),
        (ToolError::InvalidPublicKey { reason })@ == (ToolErrorView::InvalidPublicKey {
            reason: reason@,
        }),
{
}

/// For every prefix, the files of a key pair are `<prefix>.key` with the secret key
/// and `<prefix>.pub` with the public key, in this order, and the report names just
/// these. No step writes anything else, so the secret key is written at
/// `<prefix>.key` and nowhere else unless it is its own public key.
pub proof fn law_keypair_goes_to_its_files(
    files: KeypairFiles,
    prefix: Seq<char>,
    secret: Seq<u8>,
    public: Seq<u8>,
)
    requires
        is_keypair_of(files, prefix, secret, public),
    ensures
        files.key_path@ == prefix + ".key"@,
        files.pub_path@ == prefix + ".pub"@,
        files.key_path@ != files.pub_path@,
        files.secret@ == secret,
        files.public@ == public,
        keypair_ops(files).len() == 2,
        keypair_ops(files)[0] == (FileOp::Write {
            path: PathView { base: encode_utf8(prefix + ".key"@), ops: seq![] },
            data: secret,
        }),
        keypair_ops(files)[1] == (FileOp::Write {
            path: PathView { base: encode_utf8(prefix + ".pub"@), ops: seq![] },
            data: public,
        }),
        files.report@.len() == 4,
        files.report@[0]@ == "Generated keypair:"@,
        files.report@[1]@ == "  Private key: "@ + prefix + ".key"@,
        files.report@[2]@ == "  Public key:  "@ + prefix + ".pub"@,
        files.report@[3]@ == "  Public key hex: "@ + hex_text(public),
{
    let report = lines_of(files.report@);
    assert(report.len() == 4);
    assert(report[0] == files.report@[0]@ && report[1] == files.report@[1]@);
    assert(report[2] == files.report@[2]@ && report[3] == files.report@[3]@);
    assert("  Private key: "@ + prefix + ".key"@ =~= "  Private key: "@ + (prefix + ".key"@));
    assert("  Public key:  "@ + prefix + ".pub"@ =~= "  Public key:  "@ + (prefix + ".pub"@));
    reveal_strlit(".key");
    reveal_strlit(".pub");
    assert((prefix + ".key"@)[prefix.len() as int + 1] == 'k');
    assert((prefix + ".pub"@)[prefix.len() as int + 1] == 'p');
}

/// For every binary, the signature goes to a file of its own, at the path of the
/// binary with `.sig` behind it and never at the path of the binary itself, and
/// the report names the binary, its hash and that file.
pub proof fn law_signature_goes_next_to_the_binary(
    signed: SignedBinary,
    binary_path: Seq<char>,
    hash: Seq<u8>,
    signature: Seq<u8>,
)
    requires
        is_signed(signed, binary_path, hash, signature),
    ensures
        signed.sig_path@ == binary_path + ".sig"@,
        signed.sig_path@ != binary_path,
        signed.signature@ == signature,
        signed.report@.len() == 3,
        signed.report@[0]@ == "Signed: "@ + binary_path,
        signed.report@[1]@ == "  SHA-256: "@ + hex_text(hash),
        signed.report@[2]@ == "  Signature: "@ + binary_path + ".sig"@,
{
    let report = lines_of(signed.report@);
    assert(report.len() == 3);
    assert(report[0] == signed.report@[0]@);
    assert(report[1] == signed.report@[1]@ && report[2] == signed.report@[2]@);
    assert("  Signature: "@ + binary_path + ".sig"@ =~= "  Signature: "@ + (binary_path
        + ".sig"@));
    reveal_strlit(".sig");
    assert((binary_path + ".sig"@).len() == binary_path.len() + 4);
}

/// The signatures of two binaries go to one file only if the binaries lie at one
/// path.
pub proof fn law_signature_files_are_distinct(
    first: SignedBinary,
    second: SignedBinary,
    first_path: Seq<char>,
    second_path: Seq<char>,
    hash1: Seq<u8>,
    hash2: Seq<u8>,
    signature1: Seq<u8>,
    signature2: Seq<u8>,
)
    requires
        is_signed(first, first_path, hash1, signature1),
        is_signed(second, second_path, hash2, signature2),
        first.sig_path@ == second.sig_path@,
    ensures
        first_path == second_path,
{
    let file = first.sig_path@;
    let suffix = ".sig"@.len();
    assert(first_path =~= file.subrange(0, file.len() - suffix));
    assert(second_path =~= file.subrange(0, file.len() - suffix));
}

/// A verification is reported as valid, with the hash of the binary, exactly when
/// the signature was not refused; otherwise the report is the reason for which it
/// was.
pub proof fn law_report_of_a_verification(
    report: Result<Vec<String>, String>,
    hash: Seq<u8>,
    refusal: Option<Seq<char>>,
    error: String,
)
    requires
        is_verification_report(report, hash, refusal),
    ensures
        report is Ok <==> refusal is None,
        report matches Ok(lines) ==> lines@.len() == 2 && lines@[0]@ == "Signature VALID"@
            && lines@[1]@ == "  SHA-256: "@ + hex_text(hash),
        report matches Err(line) ==> line@ == "Signature INVALID: "@ + refusal->0,
        refusal_of(Ok(())) is None,
        refusal_of(Err(error)) == Some(error@),
{
    if let Ok(lines) = report {
        let shown = lines_of(lines@);
        assert(shown.len() == 2);
        assert(shown[0] == lines@[0]@ && shown[1] == lines@[1]@);
    }
}

} // verus!
