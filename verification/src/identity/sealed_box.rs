//! Sealed messages for the Bluetooth mesh. A mesh delivers out of order, more
//! than once and over many paths, so nothing here keeps a session: every
//! message has its own ephemeral key and is opened with the recipient's static
//! secret alone.
use vstd::prelude::*;
use vstd::utf8::encode_utf8;

use crate::bytes;
use crate::crypto;
use crate::crypto::{
    aead_opened, aead_sealed, aead_takes, sha256_of, x25519_public_of, x25519_shared_of,
    MAX_AEAD_PLAINTEXT,
};
use crate::error::{CoreError, ErrorView, Result};

verus! {

/// The longest sealed message: the ephemeral key, the nonce, the longest
/// plaintext and its tag.
pub const MAX_SEALED: u64 = 274877906876;

/// The label hashed behind the shared secret.
pub open spec fn key_label() -> Seq<u8> {
    encode_utf8("zao-p2p-sealed-box-v1"@)
}

/// The symmetric key made of a shared secret.
pub open spec fn symmetric_key(shared: Seq<u8>) -> Seq<u8> {
    sha256_of(shared + key_label())
}

/// The sealed form of `plaintext` for the holder of `recipient`: the ephemeral
/// public key (32 bytes), the nonce (12 bytes) and the ciphertext.
pub open spec fn sealed_of(
    ephemeral: Seq<u8>,
    nonce: Seq<u8>,
    recipient: Seq<u8>,
    plaintext: Seq<u8>,
) -> Seq<u8> {
    x25519_public_of(ephemeral) + nonce + aead_sealed(
        symmetric_key(x25519_shared_of(ephemeral, recipient)),
        nonce,
        plaintext,
    )
}

/// The plaintext in `sealed` for the holder of `secret`, where it is not longer
/// than any sealed message and its tag fits.
pub open spec fn opened_of(secret: Seq<u8>, sealed: Seq<u8>) -> Option<Seq<u8>> {
    if sealed.len() > MAX_SEALED {
        None
    } else {
        aead_opened(
            symmetric_key(x25519_shared_of(secret, sealed.subrange(0, 32))),
            sealed.subrange(32, 44),
            sealed.skip(44),
        )
    }
}

/// Whether the holder of `secret` opens `sealed` and finds `plaintext`.
pub open spec fn opens_to(secret: Seq<u8>, sealed: Seq<u8>, plaintext: Seq<u8>) -> bool {
    sealed.len() >= 44 && opened_of(secret, sealed) == Some(plaintext)
}

/// Encrypts `plaintext` for the holder of the secret behind
/// `recipient_public_key_bytes`, with a fresh ephemeral key and nonce. Fails
/// only where the plaintext is too long for the cipher.
pub fn seal(recipient_public_key_bytes: &[u8; 32], plaintext: &[u8]) -> (r: Result<Vec<u8>>)
    ensures
        match r {
            Ok(sealed) => {
                &&& aead_takes(plaintext@.len())
                &&& sealed@.len() == 60 + plaintext@.len()
                &&& exists|ephemeral: [u8; 32], nonce: [u8; 12]|
                    sealed@ == #[trigger] sealed_of(
                        ephemeral@,
                        nonce@,
                        recipient_public_key_bytes@,
                        plaintext@,
                    )
                &&& forall|secret: [u8; 32]|
                    recipient_public_key_bytes@ == #[trigger] x25519_public_of(secret@)
                        ==> opens_to(secret@, sealed@, plaintext@)
            },
            Err(e) => {
                &&& !aead_takes(plaintext@.len())
                &&& e@ == ErrorView::Crypto("sealed_box encrypt failed: aead::Error"@)
            },
        },
{
    seal_with(
        &crypto::generate_x25519_secret(),
        &crypto::random_nonce(),
        recipient_public_key_bytes,
        plaintext,
    )
}

/// Encrypts `plaintext` under a given ephemeral secret and nonce. The holder
/// of the recipient's secret opens the result and finds the plaintext.
pub fn seal_with(
    ephemeral_secret: &[u8; 32],
    nonce: &[u8; 12],
    recipient_public_key_bytes: &[u8; 32],
    plaintext: &[u8],
) -> (r: Result<Vec<u8>>)
    ensures
        match r {
            Ok(sealed) => {
                &&& aead_takes(plaintext@.len())
                &&& sealed@.len() == 60 + plaintext@.len()
                &&& sealed@ == sealed_of(
                    ephemeral_secret@,
                    nonce@,
                    recipient_public_key_bytes@,
                    plaintext@,
                )
                &&& forall|secret: [u8; 32]|
                    recipient_public_key_bytes@ == #[trigger] x25519_public_of(secret@)
                        ==> opens_to(secret@, sealed@, plaintext@)
            },
            Err(e) => {
                &&& !aead_takes(plaintext@.len())
                &&& e@ == ErrorView::Crypto("sealed_box encrypt failed: aead::Error"@)
            },
        },
{
    if plaintext.len() as u64 > MAX_AEAD_PLAINTEXT {
        return Err(CoreError::crypto("sealed_box encrypt failed: aead::Error"));
    }
    let ephemeral_public: [u8; 32] = crypto::x25519_public(ephemeral_secret);
    let shared: [u8; 32] = crypto::x25519_shared(ephemeral_secret, recipient_public_key_bytes);
    let key: [u8; 32] = derive_symmetric_key(&shared);
    let ciphertext: Vec<u8> = match crypto::chacha_encrypt(&key, nonce, plaintext) {
        Ok(c) => c,
        Err(_) => {
            return Err(CoreError::crypto("sealed_box encrypt failed: aead::Error"));
        },
    };
    let mut out: Vec<u8> = Vec::new();
    bytes::extend(&mut out, &ephemeral_public);
    bytes::extend(&mut out, nonce);
    bytes::extend(&mut out, &ciphertext);
    proof {
        assert(out@ =~= ephemeral_public@ + nonce@ + ciphertext@);
        assert(out@.subrange(0, 32) =~= ephemeral_public@);
        assert(out@.subrange(32, 44) =~= nonce@);
        assert(out@.skip(44) =~= ciphertext@);
    }
    Ok(out)
}

/// Decrypts a sealed message with the recipient's static secret.
pub fn open(recipient_secret: &[u8; 32], sealed: &[u8]) -> (r: Result<Vec<u8>>)
    ensures
        match r {
            Ok(plaintext) => opens_to(recipient_secret@, sealed@, plaintext@),
            Err(e) => if sealed@.len() < 44 {
                e@ == ErrorView::Crypto("sealed_box message too short"@)
            } else {
                &&& opened_of(recipient_secret@, sealed@) is None
                &&& e@ == ErrorView::Crypto("sealed_box decrypt failed: aead::Error"@)
            },
        },
{
    if sealed.len() < 44 {
        return Err(CoreError::crypto("sealed_box message too short"));
    }
    if sealed.len() as u64 > MAX_SEALED {
        return Err(CoreError::crypto("sealed_box decrypt failed: aead::Error"));
    }
    let (header, ciphertext) = sealed.split_at(44);
    let (key_part, nonce_part) = header.split_at(32);
    proof {
        assert(key_part@ =~= sealed@.subrange(0, 32));
        assert(nonce_part@ =~= sealed@.subrange(32, 44));
        assert(ciphertext@ =~= sealed@.skip(44));
    }
    match (bytes::array32(key_part), bytes::array12(nonce_part)) {
        (Some(ephemeral_public), Some(nonce)) => {
            let shared: [u8; 32] = crypto::x25519_shared(recipient_secret, &ephemeral_public);
            let key: [u8; 32] = derive_symmetric_key(&shared);
            match crypto::chacha_decrypt(&key, &nonce, ciphertext) {
                Ok(p) => Ok(p),
                Err(_) => Err(CoreError::crypto("sealed_box decrypt failed: aead::Error")),
            }
        },
        _ => Err(CoreError::crypto("bad ephemeral key length")),
    }
}

/// The symmetric key of a message. A plain hash is enough: the shared secret
/// is fresh for every message.
fn derive_symmetric_key(shared: &[u8; 32]) -> (key: [u8; 32])
    ensures
        key@ == symmetric_key(shared@),
{
    let mut input: Vec<u8> = bytes::to_vec(shared);
    bytes::extend(&mut input, "zao-p2p-sealed-box-v1".as_bytes());
    crypto::sha256(&input)
}

} // verus!
