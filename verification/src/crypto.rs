//! The cryptographic primitives, taken from their crates. Nothing here is
//! proved: each contract says what the crate's function is relied on for.
use chacha20poly1305::aead::{Aead, KeyInit};
use chacha20poly1305::ChaCha20Poly1305;
use ed25519_dalek::{Signer, SigningKey};
use rand_core::{OsRng, RngCore};
use sha2::{Digest, Sha256};
use vstd::prelude::*;
use vstd::utf8::encode_utf8;
use x25519_dalek::{PublicKey, StaticSecret};

use crate::text::hex_char;

verus! {

/// The SHA-256 digest of `data`.
pub uninterp spec fn sha256_of(data: Seq<u8>) -> Seq<u8>;

/// `sha2::Sha256::digest`: the result is the digest of the data.
#[verifier::external_body]
pub(crate) fn sha256(data: &[u8]) -> (r: [u8; 32])
    ensures
        r@ == sha256_of(data@),
{
    Sha256::digest(data).into()
}

/// Two lower case hexadecimal digits for each byte, the high half first.
pub open spec fn hex_text(data: Seq<u8>) -> Seq<char> {
    Seq::new(
        2 * data.len(),
        |i: int|
            hex_char(
                if i % 2 == 0 {
                    data[i / 2] as int / 16
                } else {
                    data[i / 2] as int % 16
                },
            ),
    )
}

/// `hex::encode`: the result has two lower case hexadecimal digits for each
/// byte of the data.
#[verifier::external_body]
pub(crate) fn hex_encode(data: &[u8]) -> (s: String)
    ensures
        s@ == hex_text(data@),
{
    hex::encode(data)
}

/// The value of a hexadecimal digit of either case; 16 for any other byte.
pub open spec fn hex_digit(b: u8) -> int {
    if 48 <= b <= 57 {
        b - 48
    } else if 65 <= b <= 70 {
        b - 55
    } else if 97 <= b <= 102 {
        b - 87
    } else {
        16
    }
}

/// Whether the bytes are hexadecimal digits, an even number of them.
pub open spec fn is_hex(s: Seq<u8>) -> bool {
    &&& s.len() % 2 == 0
    &&& forall|i: int| 0 <= i < s.len() ==> hex_digit(#[trigger] s[i]) < 16
}

/// The bytes that hexadecimal digits stand for, two digits each.
pub open spec fn hex_bytes(s: Seq<u8>) -> Seq<u8> {
    Seq::new(
        s.len() / 2,
        |i: int| (16 * hex_digit(s[2 * i]) + hex_digit(s[2 * i + 1])) as u8,
    )
}

/// What `hex` says of a text that is not hexadecimal.
pub uninterp spec fn hex_failure(text: Seq<char>) -> Seq<char>;

/// `hex::decode`: succeeds on an even number of hexadecimal digits of either
/// case, with the bytes they stand for. The text of the error is what the
/// crate displays; of an odd length it is stated, of a wrong character (whose
/// debug form it quotes) it is only named.
#[verifier::external_body]
pub(crate) fn hex_decode(text: &str) -> (r: Result<Vec<u8>, String>)
    ensures
        match r {
            Ok(v) => is_hex(encode_utf8(text@)) && v@ == hex_bytes(encode_utf8(text@)),
            Err(e) => {
                &&& !is_hex(encode_utf8(text@))
                &&& e@ == hex_failure(text@)
                &&& encode_utf8(text@).len() % 2 != 0 ==> e@ == "Odd number of digits"@
            },
        },
{
    hex::decode(text).map_err(|e| e.to_string())
}

/// The Ed25519 public key of a signing seed.
pub uninterp spec fn ed25519_public_of(seed: Seq<u8>) -> Seq<u8>;

/// `SigningKey::from_bytes` and `verifying_key`: the public key of the seed.
#[verifier::external_body]
pub(crate) fn ed25519_public(seed: &[u8; 32]) -> (r: [u8; 32])
    ensures
        r@ == ed25519_public_of(seed@),
{
    SigningKey::from_bytes(seed).verifying_key().to_bytes()
}

/// The Montgomery form of the Ed25519 public key of a signing seed.
pub uninterp spec fn montgomery_public_of(seed: Seq<u8>) -> Seq<u8>;

/// `VerifyingKey::to_montgomery`: the public key of the seed as an X25519
/// public key.
#[verifier::external_body]
pub(crate) fn montgomery_public(seed: &[u8; 32]) -> (r: [u8; 32])
    ensures
        r@ == montgomery_public_of(seed@),
{
    SigningKey::from_bytes(seed).verifying_key().to_montgomery().to_bytes()
}

/// The X25519 secret that belongs to a signing seed.
pub uninterp spec fn x25519_secret_of(seed: Seq<u8>) -> Seq<u8>;

/// `SigningKey::to_scalar_bytes`: the X25519 secret that belongs to the seed.
/// Its public key is the Montgomery form of the seed's Ed25519 public key.
#[verifier::external_body]
pub(crate) fn x25519_secret(seed: &[u8; 32]) -> (r: [u8; 32])
    ensures
        r@ == x25519_secret_of(seed@),
        x25519_public_of(r@) == montgomery_public_of(seed@),
{
    SigningKey::from_bytes(seed).to_scalar_bytes()
}

/// The Ed25519 signature of a message under a signing seed.
pub uninterp spec fn ed25519_signature_of(seed: Seq<u8>, message: Seq<u8>) -> Seq<u8>;

/// `Signer::sign`: the (deterministic) signature of the message.
#[verifier::external_body]
pub(crate) fn ed25519_sign(seed: &[u8; 32], message: &[u8]) -> (r: [u8; 64])
    ensures
        r@ == ed25519_signature_of(seed@, message@),
{
    SigningKey::from_bytes(seed).sign(message).to_bytes()
}

/// The X25519 public key of a secret.
pub uninterp spec fn x25519_public_of(secret: Seq<u8>) -> Seq<u8>;

/// `x25519_dalek::PublicKey::from`: the public key of the secret.
#[verifier::external_body]
pub(crate) fn x25519_public(secret: &[u8; 32]) -> (r: [u8; 32])
    ensures
        r@ == x25519_public_of(secret@),
{
    PublicKey::from(&StaticSecret::from(*secret)).to_bytes()
}

/// The secret that X25519 makes of a secret and a public key.
pub uninterp spec fn x25519_shared_of(secret: Seq<u8>, public: Seq<u8>) -> Seq<u8>;

/// `StaticSecret::diffie_hellman`: the shared secret. Where the public key is
/// that of another secret, the other side computes the same.
#[verifier::external_body]
pub(crate) fn x25519_shared(secret: &[u8; 32], public: &[u8; 32]) -> (r: [u8; 32])
    ensures
        r@ == x25519_shared_of(secret@, public@),
        forall|other: [u8; 32]|
            public@ == #[trigger] x25519_public_of(other@) ==> r@ == x25519_shared_of(
                other@,
                x25519_public_of(secret@),
            ),
{
    StaticSecret::from(*secret).diffie_hellman(&PublicKey::from(*public)).to_bytes()
}

/// The ChaCha20-Poly1305 error, which carries nothing.
#[verifier::external_type_specification]
#[verifier::external_body]
pub struct ExAeadError(chacha20poly1305::aead::Error);

/// The ciphertext and tag that ChaCha20-Poly1305 makes of a plaintext.
pub uninterp spec fn aead_sealed(key: Seq<u8>, nonce: Seq<u8>, plaintext: Seq<u8>) -> Seq<u8>;

/// The plaintext of a ciphertext with its tag, where the tag fits.
pub uninterp spec fn aead_opened(key: Seq<u8>, nonce: Seq<u8>, ciphertext: Seq<u8>) -> Option<
    Seq<u8>,
>;

/// The longest plaintext that ChaCha20-Poly1305 takes: its block counter has 32
/// bits, for blocks of 64 bytes, and all but the first and the last of its
/// values are for the plaintext.
pub const MAX_AEAD_PLAINTEXT: u64 = 274877906816;

/// Whether ChaCha20-Poly1305 takes a plaintext of this many bytes.
pub open spec fn aead_takes(len: nat) -> bool {
    len <= MAX_AEAD_PLAINTEXT
}

/// `Aead::encrypt` of `ChaCha20Poly1305`, without associated data: of a
/// plaintext that the block counter reaches to the end of, the result is 16
/// bytes longer and decrypts to it under the same key and nonce. On a longer
/// plaintext the cipher can panic.
#[verifier::external_body]
pub(crate) fn chacha_encrypt(key: &[u8; 32], nonce: &[u8; 12], plaintext: &[u8]) -> (r: Result<
    Vec<u8>,
    chacha20poly1305::aead::Error,
>)
    requires
        aead_takes(plaintext@.len()),
    ensures
        r is Ok,
        r->Ok_0@ == aead_sealed(key@, nonce@, plaintext@),
        r->Ok_0@.len() == plaintext@.len() + 16,
        aead_opened(key@, nonce@, r->Ok_0@) == Some(plaintext@),
{
    ChaCha20Poly1305::new(key.into()).encrypt(nonce.into(), plaintext)
}

/// `Aead::decrypt` of `ChaCha20Poly1305`, without associated data: gives the
/// plaintext, 16 bytes shorter, where the tag fits, and fails where it does
/// not. On a ciphertext longer than that of the longest plaintext the cipher
/// can panic.
#[verifier::external_body]
pub(crate) fn chacha_decrypt(key: &[u8; 32], nonce: &[u8; 12], ciphertext: &[u8]) -> (r: Result<
    Vec<u8>,
    chacha20poly1305::aead::Error,
>)
    requires
        ciphertext@.len() <= MAX_AEAD_PLAINTEXT + 16,
    ensures
        match r {
            Ok(p) => {
                &&& aead_opened(key@, nonce@, ciphertext@) == Some(p@)
                &&& p@.len() + 16 == ciphertext@.len()
            },
            Err(_) => aead_opened(key@, nonce@, ciphertext@) is None,
        },
{
    ChaCha20Poly1305::new(key.into()).decrypt(nonce.into(), ciphertext)
}

/// `SigningKey::generate` with `rand_core::OsRng`: a fresh signing seed.
/// Nothing is known of its value. It panics where the operating system has no
/// randomness to give.
#[verifier::external_body]
pub(crate) fn generate_signing_seed() -> [u8; 32] {
    SigningKey::generate(&mut OsRng).to_bytes()
}

/// `StaticSecret::random_from_rng` with `rand_core::OsRng`: a fresh X25519
/// secret. Nothing is known of its value. It panics where the operating system
/// has no randomness to give.
#[verifier::external_body]
pub(crate) fn generate_x25519_secret() -> [u8; 32] {
    StaticSecret::random_from_rng(OsRng).to_bytes()
}

/// `RngCore::fill_bytes` of `rand_core::OsRng`: twelve random bytes. Nothing
/// is known of their value. It panics where the operating system has no
/// randomness to give.
#[verifier::external_body]
pub(crate) fn random_nonce() -> [u8; 12] {
    let mut nonce = [0u8; 12];
    OsRng.fill_bytes(&mut nonce);
    nonce
}

/// `uuid::Uuid::new_v4` in its hyphenated form, which has 36 characters. Which
/// ones is left to chance.
#[verifier::external_body]
pub(crate) fn new_uuid() -> (s: String)
    ensures
        s@.len() == 36,
{
    uuid::Uuid::new_v4().to_string()
}

/// Digits written for bytes are read back as those bytes.
pub proof fn hex_roundtrip(data: Seq<u8>)
    ensures
        is_hex(encode_utf8(hex_text(data))),
        hex_bytes(encode_utf8(hex_text(data))) == data,
{
    let t = hex_text(data);
    assert forall|i: int| 0 <= i < t.len() implies {
        &&& (#[trigger] t[i]) as u32 <= 102
        &&& hex_digit(t[i] as u8) == (if i % 2 == 0 {
            data[i / 2] as int / 16
        } else {
            data[i / 2] as int % 16
        })
    } by {}
    assert(vstd::utf8::is_ascii_chars(t));
    vstd::utf8::is_ascii_chars_encode_utf8(t);
    let s = encode_utf8(t);
    assert forall|i: int| 0 <= i < s.len() implies hex_digit(#[trigger] s[i]) < 16 by {
        assert(s[i] == t[i] as u8);
    }
    assert forall|i: int| 0 <= i < data.len() implies #[trigger] hex_bytes(s)[i] == data[i] by {
        assert(s[2 * i] == t[2 * i] as u8);
        assert(s[2 * i + 1] == t[2 * i + 1] as u8);
        assert(2 * i / 2 == i && (2 * i + 1) / 2 == i);
    }
    assert(hex_bytes(s) =~= data);
}

} // verus!
