use rsa::pkcs8::EncodePublicKey;
use rsa::traits::{PrivateKeyParts, PublicKeyParts};
use rsa::{BigUint, RsaPrivateKey};
use yubivault::codec::encrypt_with_public_der;
use yubivault::error::ProtectError;
use yubivault::pkcs1::{decode_decrypted_block, strip_pkcs1v15_padding};
use yubivault::protector::YubiKeyManager;

fn padded(payload: &[u8]) -> Vec<u8> {
    let mut block = vec![0x00, 0x02];
    block.extend_from_slice(&[0x11, 0x22, 0x33, 0x44, 0x55, 0x66, 0x77, 0x88]);
    block.push(0x00);
    block.extend_from_slice(payload);
    block
}

/// The raw RSA operation that the token performs with its private key.
fn raw_decrypt(key: &RsaPrivateKey, ciphertext: &[u8]) -> Vec<u8> {
    let m = BigUint::from_bytes_be(ciphertext).modpow(key.d(), key.n());
    let bytes = m.to_bytes_be();
    let mut block = vec![0u8; key.size() - bytes.len()];
    block.extend_from_slice(&bytes);
    block
}

#[test]
fn strips_valid_padding() {
    let block = padded(b"hello");
    assert_eq!(strip_pkcs1v15_padding(&block), Ok(b"hello".to_vec()));
}

#[test]
fn accepts_empty_payload() {
    let block = padded(b"");
    assert_eq!(strip_pkcs1v15_padding(&block), Ok(Vec::new()));
}

#[test]
fn payload_starts_after_first_zero() {
    let block = padded(&[0x41, 0x00, 0x42]);
    assert_eq!(strip_pkcs1v15_padding(&block), Ok(vec![0x41, 0x00, 0x42]));
}

#[test]
fn rejects_short_block() {
    let block = vec![0x00, 0x02, 0x01, 0x02, 0x03, 0x04, 0x05, 0x06, 0x07, 0x00];
    assert_eq!(block.len(), 10);
    assert_eq!(strip_pkcs1v15_padding(&block), Err(ProtectError::InvalidPadding));
    assert_eq!(strip_pkcs1v15_padding(&[]), Err(ProtectError::InvalidPadding));
}

#[test]
fn rejects_wrong_first_byte() {
    let mut block = padded(b"secret");
    block[0] = 0x01;
    assert_eq!(decode_decrypted_block(&block), Err(ProtectError::InvalidPadding));
}

#[test]
fn rejects_wrong_second_byte() {
    let mut block = padded(b"secret");
    block[1] = 0x01;
    assert_eq!(decode_decrypted_block(&block), Err(ProtectError::InvalidPadding));
}

#[test]
fn rejects_missing_separator() {
    let block = vec![0x00, 0x02, 1, 2, 3, 4, 5, 6, 7, 8, 9, 10, 11, 12];
    assert_eq!(decode_decrypted_block(&block), Err(ProtectError::InvalidPadding));
}

#[test]
fn eleven_byte_block_with_separator_last() {
    let block = vec![0x00, 0x02, 1, 2, 3, 4, 5, 6, 7, 8, 0x00];
    assert_eq!(decode_decrypted_block(&block), Ok(String::new()));
}

#[test]
fn decodes_text_payload() {
    let block = padded("pässwörd".as_bytes());
    assert_eq!(decode_decrypted_block(&block), Ok("pässwörd".to_string()));
}

#[test]
fn invalid_utf8_is_replaced() {
    let block = padded(&[0x61, 0xff, 0x62]);
    assert_eq!(decode_decrypted_block(&block), Ok("a\u{FFFD}b".to_string()));
}

#[test]
fn unparsable_key_material_is_rejected() {
    assert_eq!(
        encrypt_with_public_der(&[1, 2, 3], b"secret"),
        Err(ProtectError::InvalidKeyMaterial)
    );
}

#[test]
fn encryption_hides_the_message_and_fills_the_modulus() {
    let key = RsaPrivateKey::new(&mut rand::thread_rng(), 1024).unwrap();
    let der = key.to_public_key().to_public_key_der().unwrap();
    let ct = encrypt_with_public_der(der.as_bytes(), b"secret").unwrap();
    assert_eq!(ct.len(), 128);
    assert_ne!(ct, b"secret".to_vec());
}

#[test]
fn message_too_long_for_key() {
    let key = RsaPrivateKey::new(&mut rand::thread_rng(), 1024).unwrap();
    let der = key.to_public_key().to_public_key_der().unwrap();
    let msg = vec![0x41u8; 118];
    assert_eq!(encrypt_with_public_der(der.as_bytes(), &msg), Err(ProtectError::EncryptionFailed));
    let fits = vec![0x41u8; 117];
    assert!(encrypt_with_public_der(der.as_bytes(), &fits).is_ok());
}

#[test]
fn round_trip_through_raw_rsa() {
    let key = RsaPrivateKey::new(&mut rand::thread_rng(), 1024).unwrap();
    let der = key.to_public_key().to_public_key_der().unwrap().as_bytes().to_vec();
    let password = "Printable ~ secret 123!".to_string();
    let mut sender = YubiKeyManager::new();
    let ct = sender.encrypt(password.clone(), || Ok(der.clone())).unwrap();
    let mut receiver = YubiKeyManager::new();
    let recovered = receiver.decrypt(|| Ok(raw_decrypt(&key, &ct))).unwrap();
    assert_eq!(recovered, password);
    assert_eq!(receiver.cached_password(), Some(password));
}
