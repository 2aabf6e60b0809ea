//! Sealing byte buffers into authenticated blobs and opening them again.
//!
//! A blob is `nonce ++ ciphertext-with-tag`, with no separator or length
//! prefix: the nonce width is a fixed constant shared by both directions.

use vstd::prelude::*;
use crate::cipher::aes256_gcm_decrypt;
use crate::cipher::aes256_gcm_encrypt;
use crate::cipher::aes256_gcm_open;
use crate::cipher::aes256_gcm_seal;
use crate::cipher::random_nonce;

verus! {

/// Length in bytes of a key.
pub const KEY_LEN: usize = 32;

/// Length in bytes of the nonce that starts every blob.
pub const NONCE_LEN: usize = 12;

/// Length in bytes of the authentication tag that ends every blob.
pub const TAG_LEN: usize = 16;

/// Longest plaintext the cipher accepts, in bytes: the GCM message limit
/// for a 32-bit block counter, 2^36 - 32.
pub const MAX_PLAINTEXT_LEN: u64 = 0xF_FFFF_FFE0;

/// Why encryption was refused.
#[derive(Clone, Copy, Debug, PartialEq, Eq)]
pub enum EncryptError {
    /// The key is not exactly `KEY_LEN` bytes.
    KeyLength,
    /// The cipher cannot encrypt this input: the plaintext is longer than
    /// `MAX_PLAINTEXT_LEN`.
    Encryption,
}

/// Why decryption was refused.
#[derive(Clone, Copy, Debug, PartialEq, Eq)]
pub enum DecryptError {
    /// The key is not exactly `KEY_LEN` bytes.
    KeyLength,
    /// The blob's length is out of range: too short to carry even a nonce,
    /// or longer than any blob the cipher can produce.
    BlobLength,
    /// The authentication check failed: the blob does not open under this key.
    Authentication,
}

/// The blob that sealing `plaintext` under `key` with `nonce` yields:
/// the nonce, then the ciphertext with its tag.
pub open spec fn blob_of(key: Seq<u8>, nonce: Seq<u8>, plaintext: Seq<u8>) -> Seq<u8> {
    nonce + aes256_gcm_seal(key, nonce, plaintext)
}

/// A blob length the decryptor accepts: room for the nonce, and a
/// ciphertext-with-tag no longer than sealing `MAX_PLAINTEXT_LEN` bytes
/// yields.
pub open spec fn blob_len_ok(n: nat) -> bool {
    NONCE_LEN <= n && n <= NONCE_LEN + MAX_PLAINTEXT_LEN + TAG_LEN
}

/// What opening a blob under `key` yields: the first `NONCE_LEN` bytes are
/// taken as the nonce and the rest decrypted as ciphertext-with-tag.
pub open spec fn open_blob(key: Seq<u8>, blob: Seq<u8>) -> Option<Seq<u8>>
    recommends
        blob.len() >= 12,
{
    aes256_gcm_open(key, blob.subrange(0, 12), blob.subrange(12, blob.len() as int))
}

/// The blob layout is lossless: the nonce and the ciphertext that were
/// concatenated are exactly what the fixed-width split gives back.
pub proof fn lemma_blob_split(nonce: Seq<u8>, ciphertext: Seq<u8>)
    requires
        nonce.len() == 12,
    ensures
        (nonce + ciphertext).subrange(0, 12) == nonce,
        (nonce + ciphertext).subrange(12, (nonce + ciphertext).len() as int) == ciphertext,
{
    assert((nonce + ciphertext).subrange(0, 12) =~= nonce);
    assert((nonce + ciphertext).subrange(12, (nonce + ciphertext).len() as int) =~= ciphertext);
}

/// Round trip through the blob format: whenever the cipher's own round trip
/// holds for a nonce and a plaintext, the blob built from them opens back to
/// that plaintext, so the format loses nothing around the cipher.
pub proof fn lemma_blob_round_trip(key: Seq<u8>, nonce: Seq<u8>, plaintext: Seq<u8>)
    requires
        nonce.len() == 12,
        aes256_gcm_open(key, nonce, aes256_gcm_seal(key, nonce, plaintext)) == Some(plaintext),
    ensures
        open_blob(key, blob_of(key, nonce, plaintext)) == Some(plaintext),
{
    lemma_blob_split(nonce, aes256_gcm_seal(key, nonce, plaintext));
}

/// Seal `data` under `key`: check the key length and the cipher's message
/// limit, draw a fresh random nonce, encrypt with AES-256-GCM and no
/// associated data, and return `nonce ++ ciphertext-with-tag` as one flat
/// byte vector.
///
/// A wrong-sized key or an over-long plaintext is refused before any
/// randomness is consumed; on success the blob opens back to `data` under
/// the same key.
pub fn fernet_encrypt(key: &[u8], data: &[u8]) -> (r: Result<Vec<u8>, EncryptError>)
    ensures
        (r matches Err(e) && e == EncryptError::KeyLength) <==> key@.len() != KEY_LEN,
        (r matches Err(e) && e == EncryptError::Encryption) <==> (key@.len() == KEY_LEN
            && data@.len() > MAX_PLAINTEXT_LEN),
        r is Ok <==> (key@.len() == KEY_LEN && data@.len() <= MAX_PLAINTEXT_LEN),
        r matches Ok(b) ==> {
            &&& b@.len() == NONCE_LEN + data@.len() + TAG_LEN
            &&& b@ == blob_of(key@, b@.subrange(0, NONCE_LEN as int), data@)
            &&& open_blob(key@, b@) == Some(data@)
        },
{
    if key.len() != KEY_LEN {
        return Err(EncryptError::KeyLength);
    }
    if data.len() as u64 > MAX_PLAINTEXT_LEN {
        return Err(EncryptError::Encryption);
    }
    let mut blob = random_nonce();
    let ghost nonce_seq = blob@;
    let mut ciphertext = aes256_gcm_encrypt(key, blob.as_slice(), data);
    proof {
        lemma_blob_split(nonce_seq, ciphertext@);
        lemma_blob_round_trip(key@, nonce_seq, data@);
    }
    blob.append(&mut ciphertext);
    Ok(blob)
}

/// Open a blob sealed by `fernet_encrypt`: check the key length and the
/// blob's length, split off the leading nonce, and decrypt the rest under
/// it, rejecting any blob whose authentication tag does not match.
pub fn fernet_decrypt(key: &[u8], blob: &[u8]) -> (r: Result<Vec<u8>, DecryptError>)
    ensures
        (r matches Err(e) && e == DecryptError::KeyLength) <==> key@.len() != KEY_LEN,
        (r matches Err(e) && e == DecryptError::BlobLength) <==> (key@.len() == KEY_LEN
            && !blob_len_ok(blob@.len())),
        key@.len() == KEY_LEN && blob_len_ok(blob@.len()) ==> (match open_blob(key@, blob@) {
            Some(p) => r matches Ok(q) && q@ == p,
            None => r matches Err(e) && e == DecryptError::Authentication,
        }),
{
    if key.len() != KEY_LEN {
        return Err(DecryptError::KeyLength);
    }
    if blob.len() < NONCE_LEN {
        return Err(DecryptError::BlobLength);
    }
    if (blob.len() - NONCE_LEN) as u64 > MAX_PLAINTEXT_LEN + TAG_LEN as u64 {
        return Err(DecryptError::BlobLength);
    }
    let nonce = vstd::slice::slice_subrange(blob, 0, NONCE_LEN);
    let ciphertext = vstd::slice::slice_subrange(blob, NONCE_LEN, blob.len());
    match aes256_gcm_decrypt(key, nonce, ciphertext) {
        Some(p) => Ok(p),
        None => Err(DecryptError::Authentication),
    }
}

} // verus!
