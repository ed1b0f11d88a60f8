use zao_transfer_core::error::CoreError;
use zao_transfer_core::identity::sealed_box::{open, seal, seal_with};
use zao_transfer_core::identity::{DeviceIdentity, StoredIdentity};

const SEED: [u8; 32] = [
    0x9d, 0x61, 0xb1, 0x9d, 0xef, 0xfd, 0x5a, 0x60, 0xba, 0x84, 0x4a, 0xf4, 0x92, 0xec, 0x2c, 0xc4,
    0x44, 0x49, 0xc5, 0x69, 0x7b, 0x32, 0x69, 0x19, 0x70, 0x3b, 0xac, 0x03, 0x1c, 0xae, 0x7f, 0x60,
];

fn hex(bytes: &[u8]) -> String {
    let mut s = String::new();
    for b in bytes {
        s.push_str(&format!("{:02x}", b));
    }
    s
}

#[test]
fn seal_and_open_roundtrip() {
    let recipient = DeviceIdentity::generate();
    let recipient_public_bytes = recipient.noise_public();

    let plaintext = b"hello over BLE mesh";
    let sealed = seal(&recipient_public_bytes, plaintext).unwrap();
    let opened = open(&recipient.noise_static, &sealed).unwrap();

    assert_eq!(opened, plaintext);
}

#[test]
fn wrong_recipient_cannot_decrypt() {
    let recipient = DeviceIdentity::generate();
    let eavesdropper = DeviceIdentity::generate();
    let recipient_public_bytes = recipient.noise_public();

    let sealed = seal(&recipient_public_bytes, b"secret").unwrap();
    let result = open(&eavesdropper.noise_static, &sealed);
    assert!(result.is_err());
}

#[test]
fn generate_and_roundtrip() {
    let id = DeviceIdentity::generate();
    let stored = id.to_stored();
    let restored = DeviceIdentity::from_stored(&stored).unwrap();
    assert_eq!(id.device_id, restored.device_id);
    assert_eq!(id.signing_key, restored.signing_key);
    assert_eq!(id.noise_static, restored.noise_static);
}

#[test]
fn device_id_is_deterministic_from_key() {
    let id = DeviceIdentity::generate();
    let expected = DeviceIdentity::derive_device_id(&id.verifying_key());
    assert_eq!(id.device_id, expected);
}

#[test]
fn noise_static_key_resolves_back_to_real_device_id() {
    let id = DeviceIdentity::generate();
    let noise_public_bytes = id.noise_public();
    let derived = DeviceIdentity::device_id_from_public_key(&noise_public_bytes);
    assert_eq!(derived, id.device_id);
}

#[test]
fn two_identities_derive_different_noise_keys() {
    let a = DeviceIdentity::generate();
    let b = DeviceIdentity::generate();
    assert_ne!(a.noise_static, b.noise_static);
    assert_ne!(a.device_id, b.device_id);
}

#[test]
fn identity_of_a_known_seed() {
    let id = DeviceIdentity::from_signing_seed(SEED);
    assert_eq!(
        hex(&id.verifying_key().ed25519),
        "d75a980182b10ab7d54bfed3c964073a0ee172f3daa62325af021a68f707511a"
    );
    assert_eq!(
        hex(&id.verifying_key().x25519),
        "d85e07ec22b0ad881537c2f44d662d1a143cf830c57aca4305d85c7a90f6b62e"
    );
    assert_eq!(
        hex(&id.noise_static),
        "357c83864f2833cb427a2ef1c00a013cfdff2768d980c0a3a520f006904de90f"
    );
    assert_eq!(
        hex(&id.noise_public()),
        "d85e07ec22b0ad881537c2f44d662d1a143cf830c57aca4305d85c7a90f6b62e"
    );
    assert_eq!(
        id.device_id,
        "e178e9ae16e74776cd7e29d1874b1148da4ffffeca924ac7d45023b304acac69"
    );
}

#[test]
fn signature_of_a_known_seed() {
    let id = DeviceIdentity::from_signing_seed(SEED);
    assert_eq!(
        hex(&id.sign(b"")),
        "e5564300c360ac729086e2cc806e828a84877f1eb8e5d974d873e065224901555fb8821590a33bacc61e39701cf9b46bd25bf5f0595bbe24655141438e7a100b"
    );
    assert_ne!(id.sign(b"a").to_vec(), id.sign(b"b").to_vec());
}

#[test]
fn device_id_is_a_hex_digest() {
    assert_eq!(DeviceIdentity::generate().device_id.len(), 64);
    assert_eq!(
        DeviceIdentity::device_id_from_public_key(b"abc"),
        "ba7816bf8f01cfea414140de5dae2223b00361a396177a9cb410ff61f20015ad"
    );
    assert_eq!(
        DeviceIdentity::device_id_from_public_key(b""),
        "e3b0c44298fc1c149afbf4c8996fb92427ae41e4649b934ca495991b7852b855"
    );
}

#[test]
fn stored_identity_with_a_foreign_id_is_refused() {
    let id = DeviceIdentity::generate();
    let stored = StoredIdentity {
        device_id: "not the id".to_string(),
        signing_key_bytes: id.signing_key,
        noise_static_bytes: id.noise_static,
    };
    match DeviceIdentity::from_stored(&stored) {
        Err(CoreError::InvalidState(text)) => {
            assert_eq!(text, "stored device_id does not match derived key")
        }
        _ => panic!("expected an error"),
    }
}

#[test]
fn sealed_message_of_known_keys() {
    let id = DeviceIdentity::from_signing_seed(SEED);
    let nonce: [u8; 12] = [0, 1, 2, 3, 4, 5, 6, 7, 8, 9, 10, 11];
    let sealed = seal_with(&[1u8; 32], &nonce, &id.noise_public(), b"hello over BLE mesh").unwrap();
    assert_eq!(
        hex(&sealed),
        "a4e09292b651c278b9772c569f5fa9bb13d906b46ab68c9df9dc2b4409f8a209000102030405060708090a0b096c72eca5098a9ae41bc9a3fd7a81fbc1574d508523ec081c152b8d5d9d864359d0f6"
    );
    assert_eq!(open(&id.noise_static, &sealed).unwrap(), b"hello over BLE mesh");
}

#[test]
fn sealed_messages_are_fresh_each_time() {
    let id = DeviceIdentity::generate();
    let a = seal(&id.noise_public(), b"same").unwrap();
    let b = seal(&id.noise_public(), b"same").unwrap();
    assert_eq!(a.len(), 60 + 4);
    assert_ne!(a[0..32].to_vec(), b[0..32].to_vec());
    assert_ne!(a[32..44].to_vec(), b[32..44].to_vec());
}

#[test]
fn short_and_tampered_sealed_messages_are_refused() {
    let id = DeviceIdentity::generate();
    match open(&id.noise_static, &[0u8; 43]) {
        Err(CoreError::Crypto(text)) => assert_eq!(text, "sealed_box message too short"),
        _ => panic!("expected an error"),
    }
    match open(&id.noise_static, &[0u8; 44]) {
        Err(CoreError::Crypto(text)) => assert_eq!(text, "sealed_box decrypt failed: aead::Error"),
        _ => panic!("expected an error"),
    }
    let mut sealed = seal(&id.noise_public(), b"payload").unwrap();
    let last = sealed.len() - 1;
    sealed[last] ^= 1;
    assert!(open(&id.noise_static, &sealed).is_err());
}

#[test]
fn empty_message_can_be_sealed() {
    let id = DeviceIdentity::generate();
    let sealed = seal(&id.noise_public(), b"").unwrap();
    assert_eq!(sealed.len(), 60);
    assert_eq!(open(&id.noise_static, &sealed).unwrap(), b"");
}
