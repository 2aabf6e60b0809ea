use aead_blob::fernet_decrypt;
use aead_blob::fernet_encrypt;
use aead_blob::DecryptError;
use aead_blob::EncryptError;
use aes_gcm::aead::Aead;
use aes_gcm::aead::NewAead;
use aes_gcm::Aes256Gcm;

fn key_bytes() -> Vec<u8> {
    (0u8..32u8).collect()
}

/// An independent counterpart decryptor built straight on the aes-gcm crate:
/// first 12 bytes are the nonce, the rest ciphertext-with-tag.
fn counterpart_decrypt(key: &[u8], blob: &[u8]) -> Option<Vec<u8>> {
    let cipher = Aes256Gcm::new_from_slice(key).ok()?;
    if blob.len() < 12 {
        return None;
    }
    let nonce = aes_gcm::Nonce::from_slice(&blob[..12]);
    cipher.decrypt(nonce, &blob[12..]).ok()
}

#[test]
fn round_trip_basic() {
    let key = key_bytes();
    let plaintext = b"attack at dawn".to_vec();
    let blob = fernet_encrypt(&key, &plaintext).unwrap();
    assert_eq!(fernet_decrypt(&key, &blob).unwrap(), plaintext);
    assert_eq!(counterpart_decrypt(&key, &blob).unwrap(), plaintext);
}

#[test]
fn round_trip_various_lengths() {
    let key = key_bytes();
    for len in [0usize, 1, 13, 16, 255, 1000] {
        let plaintext: Vec<u8> = (0..len).map(|i| (i % 251) as u8).collect();
        let blob = fernet_encrypt(&key, &plaintext).unwrap();
        assert_eq!(blob.len(), 12 + len + 16);
        assert_eq!(fernet_decrypt(&key, &blob).unwrap(), plaintext);
        assert_eq!(counterpart_decrypt(&key, &blob).unwrap(), plaintext);
    }
}

#[test]
fn nonce_freshness() {
    let key = key_bytes();
    let plaintext = b"same message".to_vec();
    let a = fernet_encrypt(&key, &plaintext).unwrap();
    let b = fernet_encrypt(&key, &plaintext).unwrap();
    assert_ne!(&a[..12], &b[..12]);
}

#[test]
fn determinism_isolation() {
    let key = key_bytes();
    let plaintext = b"same message".to_vec();
    let a = fernet_encrypt(&key, &plaintext).unwrap();
    let b = fernet_encrypt(&key, &plaintext).unwrap();
    assert_ne!(a, b);
}

#[test]
fn length_invariant() {
    let key = key_bytes();
    assert_eq!(fernet_encrypt(&key, b"").unwrap().len(), 12 + 0 + 16);
    assert_eq!(fernet_encrypt(&key, b"x").unwrap().len(), 12 + 1 + 16);
    assert_eq!(fernet_encrypt(&key, &[7u8; 500]).unwrap().len(), 12 + 500 + 16);
}

#[test]
fn empty_plaintext() {
    let key = key_bytes();
    let blob = fernet_encrypt(&key, b"").unwrap();
    assert_eq!(blob.len(), 28);
    assert_eq!(fernet_decrypt(&key, &blob).unwrap(), Vec::<u8>::new());
    assert_eq!(counterpart_decrypt(&key, &blob).unwrap(), Vec::<u8>::new());
}

#[test]
fn tamper_detection_every_bit() {
    let key = key_bytes();
    let plaintext = b"abc".to_vec();
    let blob = fernet_encrypt(&key, &plaintext).unwrap();
    for byte in 0..blob.len() {
        for bit in 0..8 {
            let mut tampered = blob.clone();
            tampered[byte] ^= 1u8 << bit;
            assert_eq!(
                fernet_decrypt(&key, &tampered),
                Err(DecryptError::Authentication)
            );
            assert_eq!(counterpart_decrypt(&key, &tampered), None);
        }
    }
}

#[test]
fn key_length_validation() {
    for len in [0usize, 16, 31, 33, 64] {
        let key = vec![0u8; len];
        assert_eq!(fernet_encrypt(&key, b"data"), Err(EncryptError::KeyLength));
        assert_eq!(
            fernet_decrypt(&key, &[0u8; 40]),
            Err(DecryptError::KeyLength)
        );
    }
}

#[test]
fn decrypt_blob_too_short() {
    let key = key_bytes();
    assert_eq!(fernet_decrypt(&key, b""), Err(DecryptError::BlobLength));
    assert_eq!(
        fernet_decrypt(&key, &[0u8; 11]),
        Err(DecryptError::BlobLength)
    );
    // Twelve bytes carry a nonce but no tag: rejected as unauthentic.
    assert_eq!(
        fernet_decrypt(&key, &[0u8; 12]),
        Err(DecryptError::Authentication)
    );
    assert_eq!(
        fernet_decrypt(&key, &[0u8; 27]),
        Err(DecryptError::Authentication)
    );
}

#[test]
fn decrypt_wrong_key_fails() {
    let key = key_bytes();
    let other: Vec<u8> = (100u8..132u8).collect();
    let blob = fernet_encrypt(&key, b"secret").unwrap();
    assert_eq!(
        fernet_decrypt(&other, &blob),
        Err(DecryptError::Authentication)
    );
}

#[test]
fn ciphertext_differs_from_plaintext() {
    let key = key_bytes();
    let plaintext = b"not handed back unchanged".to_vec();
    let blob = fernet_encrypt(&key, &plaintext).unwrap();
    assert_ne!(&blob[12..12 + plaintext.len()], plaintext.as_slice());
}
