//! Hashes, keys and signatures.

use crate::hex::hex_text;
use vstd::prelude::*;
use vstd::utf8::encode_utf8;

verus! {

/// The 32 bytes of the BLAKE3 hash of `input`: what `blake3::hash` returns.
pub uninterp spec fn blake3_hash(input: Seq<u8>) -> Seq<u8>;

/// Whether 32 bytes decode to a point of the curve: whether `PublicKey::from_bytes` of
/// `ed25519_dalek_blake3` accepts them.
pub uninterp spec fn public_key_decodes(bytes: Seq<u8>) -> bool;

/// The bytes of the public key that belongs to a secret key: what `PublicKey::from` of
/// `ed25519_dalek_blake3` derives.
pub uninterp spec fn derived_public_key(secret: Seq<u8>) -> Seq<u8>;

/// The 64 bytes of the expanded secret key: what `ExpandedSecretKey::from` of
/// `ed25519_dalek_blake3` derives.
pub uninterp spec fn expanded_secret_key(secret: Seq<u8>) -> Seq<u8>;

/// The 64 bytes of the signature on a message: what `ExpandedSecretKey::sign` of
/// `ed25519_dalek_blake3` returns.
pub uninterp spec fn ed25519_signature(
    expanded: Seq<u8>,
    message: Seq<u8>,
    public_key: Seq<u8>,
) -> Seq<u8>;

/// Whether a signature on a message holds under a public key: whether `PublicKey::verify` of
/// `ed25519_dalek_blake3` accepts it.
pub uninterp spec fn signature_verifies(
    public_key: Seq<u8>,
    message: Seq<u8>,
    signature: Seq<u8>,
) -> bool;

/// The error of `ed25519_dalek_blake3`.
#[verifier::external_type_specification]
#[verifier::external_body]
pub struct ExSignatureError(ed25519_dalek_blake3::SignatureError);

/// Calls `blake3::hash`. The hash has a name; nothing else is claimed of it.
#[verifier::external_body]
fn hash_bytes(input: &[u8]) -> (hash: [u8; 32])
    ensures
        hash@ == blake3_hash(input@),
{
    *blake3::hash(input).as_bytes()
}

/// Calls `to_string` of `blake3::Hash`, which writes the bytes in lower-case hexadecimal.
#[verifier::external_body]
fn hash_to_string(bytes: &[u8; 32]) -> (text: String)
    ensures
        text@ == hex_text(bytes@),
{
    blake3::Hash::from(*bytes).to_string()
}

/// Calls `Keypair::generate` of `ed25519_dalek_blake3` with the random numbers of the operating
/// system and gives the secret and the public bytes. Whatever the secret is, the public key is
/// the one that belongs to it, and its bytes decode. How the secret is drawn is not said.
#[verifier::external_body]
fn keypair_generate() -> (keys: ([u8; 32], [u8; 32]))
    ensures
        keys.1@ == derived_public_key(keys.0@),
        public_key_decodes(keys.1@),
{
    let mut generator = rand::rngs::OsRng {};
    let keypair = ed25519_dalek_blake3::Keypair::generate(&mut generator);
    (keypair.secret.to_bytes(), keypair.public.to_bytes())
}

/// Calls `PublicKey::from_bytes` of `ed25519_dalek_blake3` and says whether it accepts the bytes.
/// Which points those are has a name; nothing else is claimed of it.
#[verifier::external_body]
fn public_key_check(bytes: &[u8; 32]) -> (checked: Result<(), ed25519_dalek_blake3::SignatureError>)
    ensures
        checked is Ok == public_key_decodes(bytes@),
{
    ed25519_dalek_blake3::PublicKey::from_bytes(bytes).map(drop)
}

/// Calls `Signature::from_bytes`, as `ed25519_dalek_blake3` exports it, and says whether it
/// accepts the bytes: it does where the three highest bits of the last byte are zero.
#[verifier::external_body]
fn signature_check(bytes: &[u8; 64]) -> (checked: Result<(), ed25519_dalek_blake3::SignatureError>)
    ensures
        checked is Ok == (bytes@[63] < 0x20),
{
    ed25519_dalek_blake3::Signature::from_bytes(bytes).map(drop)
}

/// Calls `ExpandedSecretKey::from` of `ed25519_dalek_blake3`. The expanded key has a name;
/// nothing else is claimed of it.
#[verifier::external_body]
fn secret_key_expand(secret: &[u8; 32]) -> (expanded: [u8; 64])
    ensures
        expanded@ == expanded_secret_key(secret@),
{
    let secret_key = ed25519_dalek_blake3::SecretKey::from_bytes(secret).unwrap();
    ed25519_dalek_blake3::ExpandedSecretKey::from(&secret_key).to_bytes()
}

/// Calls `ExpandedSecretKey::sign` of `ed25519_dalek_blake3`. The signature has a name. The three
/// highest bits of its last byte are zero, since its scalar is reduced. Where the expanded key and
/// the public key come from one secret key, the signature holds under the public key.
#[verifier::external_body]
fn expanded_key_sign(expanded: &[u8; 64], message: &[u8], public_key: &[u8; 32]) -> (signature: [u8;
    64])
    requires
        public_key_decodes(public_key@),
    ensures
        signature@ == ed25519_signature(expanded@, message@, public_key@),
        signature@[63] < 0x20,
        forall|secret: Seq<u8>|
            secret.len() == 32 && expanded@ == #[trigger] expanded_secret_key(secret)
                && public_key@ == derived_public_key(secret) ==> signature_verifies(
                public_key@,
                message@,
                signature@,
            ),
{
    let expanded_key = ed25519_dalek_blake3::ExpandedSecretKey::from_bytes(expanded).unwrap();
    let key = ed25519_dalek_blake3::PublicKey::from_bytes(public_key).unwrap();
    expanded_key.sign(message, &key).to_bytes()
}

/// Calls `verify` of the `PublicKey` of `ed25519_dalek_blake3`. Whether the signature holds has a
/// name. That a signature on one message fails on another is beyond what can be claimed: it rests
/// on the strength of the hash and of the curve.
#[verifier::external_body]
fn public_key_verify(public_key: &[u8; 32], message: &[u8], signature: &[u8; 64]) -> (verified:
    Result<(), ed25519_dalek_blake3::SignatureError>)
    requires
        public_key_decodes(public_key@),
        signature@[63] < 0x20,
    ensures
        verified is Ok == signature_verifies(public_key@, message@, signature@),
{
    let key = ed25519_dalek_blake3::PublicKey::from_bytes(public_key).unwrap();
    let signature = ed25519_dalek_blake3::Signature::from_bytes(signature).unwrap();
    ed25519_dalek_blake3::Verifier::verify(&key, message, &signature)
}

/// A 32-byte hash.
#[derive(Clone, Copy, Debug, PartialEq, Eq)]
pub struct Hash {
    bytes: [u8; 32],
}

impl View for Hash {
    type V = Seq<u8>;

    closed spec fn view(&self) -> Seq<u8> {
        self.bytes@
    }
}

impl Hash {
    /// The hash with the given bytes.
    pub fn from_bytes(bytes: [u8; 32]) -> (hash: Hash)
        ensures
            hash@ == bytes@,
    {
        Hash { bytes }
    }

    /// The bytes of the hash.
    pub fn as_bytes(&self) -> (bytes: &[u8; 32])
        ensures
            bytes@ == self@,
    {
        &self.bytes
    }

    /// The bytes of the hash in lower-case hexadecimal.
    pub fn to_string(&self) -> (text: String)
        ensures
            text@ == hex_text(self@),
    {
        hash_to_string(&self.bytes)
    }
}

/// A key, or a signature, was refused.
#[derive(Clone, Copy, Debug, PartialEq, Eq, Structural)]
pub struct CryptoError;

/// A secret key.
pub struct SecretKey {
    bytes: [u8; 32],
}

impl View for SecretKey {
    type V = Seq<u8>;

    closed spec fn view(&self) -> Seq<u8> {
        self.bytes@
    }
}

impl SecretKey {
    /// The secret key with the given bytes.
    pub fn from_bytes(bytes: [u8; 32]) -> (key: SecretKey)
        ensures
            key@ == bytes@,
    {
        SecretKey { bytes }
    }

    /// The bytes of the key.
    pub fn to_bytes(&self) -> (bytes: [u8; 32])
        ensures
            bytes@ == self@,
    {
        self.bytes
    }
}

/// A public key: 32 bytes that decode to a point of the curve.
#[derive(Clone, Copy, Debug, PartialEq, Eq)]
pub struct PublicKey {
    bytes: [u8; 32],
}

impl View for PublicKey {
    type V = Seq<u8>;

    closed spec fn view(&self) -> Seq<u8> {
        self.bytes@
    }
}

impl PublicKey {
    #[verifier::type_invariant]
    spec fn decodes(self) -> bool {
        public_key_decodes(self.bytes@)
    }

    /// The public key with the given bytes, if they decode.
    pub fn from_bytes(bytes: [u8; 32]) -> (key: Result<PublicKey, CryptoError>)
        ensures
            key is Ok == public_key_decodes(bytes@),
            key matches Ok(key) ==> key@ == bytes@,
    {
        match public_key_check(&bytes) {
            Ok(()) => Ok(PublicKey { bytes }),
            Err(_) => Err(CryptoError),
        }
    }

    /// The bytes of the key.
    pub fn to_bytes(&self) -> (bytes: [u8; 32])
        ensures
            bytes@ == self@,
    {
        self.bytes
    }
}

/// A signature: 64 bytes, the three highest bits of the last one zero.
#[derive(Clone, Copy, Debug, PartialEq, Eq)]
pub struct Signature {
    bytes: [u8; 64],
}

impl View for Signature {
    type V = Seq<u8>;

    closed spec fn view(&self) -> Seq<u8> {
        self.bytes@
    }
}

impl Signature {
    #[verifier::type_invariant]
    spec fn partly_reduced(self) -> bool {
        self.bytes@[63] < 0x20
    }

    /// The signature with the given bytes, if the three highest bits of the last one are zero.
    pub fn from_bytes(bytes: [u8; 64]) -> (signature: Result<Signature, CryptoError>)
        ensures
            signature is Ok == (bytes@[63] < 0x20),
            signature matches Ok(signature) ==> signature@ == bytes@,
    {
        match signature_check(&bytes) {
            Ok(()) => Ok(Signature { bytes }),
            Err(_) => Err(CryptoError),
        }
    }

    /// The bytes of the signature.
    pub fn to_bytes(&self) -> (bytes: [u8; 64])
        ensures
            bytes@ == self@,
    {
        self.bytes
    }
}

/// A secret key and a public key.
pub struct Keypair {
    pub secret: SecretKey,
    pub public: PublicKey,
}

/// A fresh secret key with the public key that belongs to it.
pub fn generate_keypair() -> (keypair: Keypair)
    ensures
        keypair.public@ == derived_public_key(keypair.secret@),
{
    let (secret, public) = keypair_generate();
    Keypair { secret: SecretKey { bytes: secret }, public: PublicKey { bytes: public } }
}

/// Signs `message`. The signature holds under `public_key` if that is the key that belongs to
/// `secret_key`.
pub fn sign_data(public_key: &PublicKey, secret_key: &SecretKey, message: &[u8]) -> (signature:
    Signature)
    ensures
        signature@ == ed25519_signature(
            expanded_secret_key(secret_key@),
            message@,
            public_key@,
        ),
        public_key@ == derived_public_key(secret_key@) ==> signature_verifies(
            public_key@,
            message@,
            signature@,
        ),
{
    proof {
        use_type_invariant(public_key);
    }
    let expanded = secret_key_expand(&secret_key.bytes);
    Signature { bytes: expanded_key_sign(&expanded, message, &public_key.bytes) }
}

/// Checks that `signature` holds on `message` under `public_key`.
pub fn verify_data(public_key: &PublicKey, message: &[u8], signature: &Signature) -> (verified:
    Result<(), CryptoError>)
    ensures
        verified is Ok == signature_verifies(public_key@, message@, signature@),
{
    proof {
        use_type_invariant(public_key);
        use_type_invariant(signature);
    }
    match public_key_verify(&public_key.bytes, message, &signature.bytes) {
        Ok(()) => Ok(()),
        Err(_) => Err(CryptoError),
    }
}

/// The token of a random text: its hash.
pub fn generate_random_token(random: &str) -> (token: Hash)
    ensures
        token@ == blake3_hash(encode_utf8(random@)),
{
    Hash { bytes: hash_bytes(random.as_bytes()) }
}

/// The key under which `name` is discovered: its hash.
pub fn generate_discovery_key(name: &[u8]) -> (key: Hash)
    ensures
        key@ == blake3_hash(name@),
{
    Hash { bytes: hash_bytes(name) }
}

/// Signs `message` with fresh keys, then checks the signature on `received`. On the message itself
/// it holds, whatever the message is; on anything else it is accepted exactly where it holds there
/// under the same public key.
pub fn signed_then_checked(message: &[u8], received: &[u8]) -> (checked: (
    Keypair,
    Signature,
    Result<(), CryptoError>,
))
    ensures
        checked.1@ == ed25519_signature(
            expanded_secret_key(checked.0.secret@),
            message@,
            derived_public_key(checked.0.secret@),
        ),
        checked.2 is Ok == signature_verifies(
            derived_public_key(checked.0.secret@),
            received@,
            checked.1@,
        ),
        received@ == message@ ==> checked.2 is Ok,
{
    let keypair = generate_keypair();
    let signature = sign_data(&keypair.public, &keypair.secret, message);
    let verified = verify_data(&keypair.public, received, &signature);
    (keypair, signature, verified)
}

} // verus!
