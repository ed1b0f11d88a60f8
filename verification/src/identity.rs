//! Device identity: one long-term signing key, and the X25519 key that belongs
//! to it and is used in session handshakes.
use vstd::prelude::*;

use crate::crypto;
use crate::crypto::{
    ed25519_public_of, ed25519_signature_of, hex_text, montgomery_public_of, sha256_of,
    x25519_public_of, x25519_secret_of,
};
use crate::error::{CoreError, ErrorView, Result};
use crate::text::str_equal;

pub mod sealed_box;

verus! {

/// The public half of a signing key, in its Ed25519 form and as the X25519
/// public key that it is equivalent to.
#[derive(Clone, Copy)]
pub struct VerifyingKey {
    pub ed25519: [u8; 32],
    pub x25519: [u8; 32],
}

/// A device's full identity: a long-term signing key and the static key used
/// for session handshakes and sealed messages.
pub struct DeviceIdentity {
    pub device_id: String,
    pub signing_key: [u8; 32],
    pub noise_static: [u8; 32],
}

/// An identity as it is kept in the encrypted database.
pub struct StoredIdentity {
    pub device_id: String,
    pub signing_key_bytes: [u8; 32],
    pub noise_static_bytes: [u8; 32],
}

/// The identifier of the device whose X25519 public key is `public`: its
/// SHA-256 digest in hexadecimal.
pub open spec fn device_id_of(public: Seq<u8>) -> Seq<char> {
    hex_text(sha256_of(public))
}

impl DeviceIdentity {
    /// The identifier is the one that belongs to the signing key.
    pub open spec fn id_matches(self) -> bool {
        self.device_id@ == device_id_of(montgomery_public_of(self.signing_key@))
    }

    /// The static key is the one derived from the signing key.
    pub open spec fn noise_key_matches(self) -> bool {
        &&& self.noise_static@ == x25519_secret_of(self.signing_key@)
        &&& x25519_public_of(self.noise_static@) == montgomery_public_of(self.signing_key@)
    }

    /// A brand new identity, for the first launch. Which one is left to chance;
    /// its identifier and static key follow from its signing key.
    pub fn generate() -> (r: Self)
        ensures
            r.id_matches(),
            r.device_id@.len() == 64,
            r.noise_key_matches(),
    {
        Self::from_signing_seed(crypto::generate_signing_seed())
    }

    /// The identity that belongs to a signing key.
    pub fn from_signing_seed(seed: [u8; 32]) -> (r: Self)
        ensures
            r.signing_key == seed,
            r.id_matches(),
            r.device_id@.len() == 64,
            r.noise_key_matches(),
    {
        let noise_static: [u8; 32] = Self::derive_noise_static(&seed);
        let device_id: String = Self::derive_device_id(&verifying_key_of(&seed));
        DeviceIdentity { device_id, signing_key: seed, noise_static }
    }

    /// The X25519 secret that belongs to a signing key, by the standard
    /// conversion of an Ed25519 seed: hashed, and its first half taken.
    fn derive_noise_static(seed: &[u8; 32]) -> (r: [u8; 32])
        ensures
            r@ == x25519_secret_of(seed@),
            x25519_public_of(r@) == montgomery_public_of(seed@),
    {
        crypto::x25519_secret(seed)
    }

    pub fn verifying_key(&self) -> (vk: VerifyingKey)
        ensures
            vk.ed25519@ == ed25519_public_of(self.signing_key@),
            vk.x25519@ == montgomery_public_of(self.signing_key@),
    {
        verifying_key_of(&self.signing_key)
    }

    pub fn noise_public(&self) -> (r: [u8; 32])
        ensures
            r@ == x25519_public_of(self.noise_static@),
    {
        crypto::x25519_public(&self.noise_static)
    }

    /// The stable, shareable identifier of the device with this public key. It
    /// is computed from the key's X25519 form, the form that a handshake
    /// reveals.
    pub fn derive_device_id(vk: &VerifyingKey) -> (s: String)
        ensures
            s@ == device_id_of(vk.x25519@),
            s@.len() == 64,
    {
        Self::device_id_from_public_key(&vk.x25519)
    }

    /// The identifier of the peer whose X25519 public key was observed in a
    /// handshake.
    pub fn device_id_from_public_key(public_key_bytes: &[u8]) -> (s: String)
        ensures
            s@ == device_id_of(public_key_bytes@),
            s@.len() == 64,
    {
        crypto::hex_encode(&crypto::sha256(public_key_bytes))
    }

    /// Signs a payload with the long-term key.
    pub fn sign(&self, message: &[u8]) -> (r: [u8; 64])
        ensures
            r@ == ed25519_signature_of(self.signing_key@, message@),
    {
        crypto::ed25519_sign(&self.signing_key, message)
    }

    pub fn to_stored(&self) -> (r: StoredIdentity)
        ensures
            r.device_id == self.device_id,
            r.signing_key_bytes == self.signing_key,
            r.noise_static_bytes == self.noise_static,
    {
        StoredIdentity {
            device_id: self.device_id.clone(),
            signing_key_bytes: self.signing_key,
            noise_static_bytes: self.noise_static,
        }
    }

    /// Restores an identity, refusing one whose identifier is not that of its
    /// signing key. The static key is taken as it was stored.
    pub fn from_stored(stored: &StoredIdentity) -> (r: Result<Self>)
        ensures
            match r {
                Ok(id) => {
                    &&& stored.device_id@ == device_id_of(
                        montgomery_public_of(stored.signing_key_bytes@),
                    )
                    &&& id.device_id == stored.device_id
                    &&& id.signing_key == stored.signing_key_bytes
                    &&& id.noise_static == stored.noise_static_bytes
                },
                Err(e) => {
                    &&& stored.device_id@ != device_id_of(
                        montgomery_public_of(stored.signing_key_bytes@),
                    )
                    &&& e@ == ErrorView::InvalidState(
                        "stored device_id does not match derived key"@,
                    )
                },
            },
    {
        let expected_id: String = Self::derive_device_id(
            &verifying_key_of(&stored.signing_key_bytes),
        );
        if !str_equal(expected_id.as_str(), stored.device_id.as_str()) {
            return Err(CoreError::invalid_state("stored device_id does not match derived key"));
        }
        Ok(
            DeviceIdentity {
                device_id: stored.device_id.clone(),
                signing_key: stored.signing_key_bytes,
                noise_static: stored.noise_static_bytes,
            },
        )
    }
}

/// The public half of a signing seed.
pub fn verifying_key_of(seed: &[u8; 32]) -> (vk: VerifyingKey)
    ensures
        vk.ed25519@ == ed25519_public_of(seed@),
        vk.x25519@ == montgomery_public_of(seed@),
{
    VerifyingKey { ed25519: crypto::ed25519_public(seed), x25519: crypto::montgomery_public(seed) }
}

/// The public key that an identity shows in a handshake resolves back to its
/// own identifier.
pub proof fn noise_key_resolves_to_device_id(id: DeviceIdentity)
    requires
        id.id_matches(),
        id.noise_key_matches(),
    ensures
        device_id_of(x25519_public_of(id.noise_static@)) == id.device_id@,
{
}

/// What [`DeviceIdentity::from_stored`] requires of a stored identity holds of
/// every identity whose identifier matches its key, so storing and restoring
/// such an identity gives it back.
pub proof fn stored_identity_restores(id: DeviceIdentity, stored: StoredIdentity)
    requires
        id.id_matches(),
        stored.device_id == id.device_id,
        stored.signing_key_bytes == id.signing_key,
        stored.noise_static_bytes == id.noise_static,
    ensures
        stored.device_id@ == device_id_of(montgomery_public_of(stored.signing_key_bytes@)),
        forall|restored: DeviceIdentity|
            #![trigger restored.device_id]
            restored.device_id == stored.device_id && restored.signing_key
                == stored.signing_key_bytes && restored.noise_static == stored.noise_static_bytes
                ==> restored == id,
{
}

} // verus!
