//! The trusted boundary: the AES-256-GCM implementation and the process-wide
//! secure random source, behind contracts that the rest of the crate is
//! verified against.

use vstd::prelude::*;
use aes_gcm::Aes256Gcm;
use aes_gcm::aead::Aead;
use aes_gcm::aead::NewAead;
use rand::Rng;

verus! {

/// The ciphertext-with-tag that AES-256-GCM produces for a key, a nonce and
/// a plaintext: a deterministic function of the three.
pub uninterp spec fn aes256_gcm_seal(key: Seq<u8>, nonce: Seq<u8>, plaintext: Seq<u8>) -> Seq<u8>;

/// What AES-256-GCM decryption yields for a key, a nonce and a
/// ciphertext-with-tag: the recovered plaintext, or `None` when the
/// authentication check fails; a deterministic function of the three.
pub uninterp spec fn aes256_gcm_open(key: Seq<u8>, nonce: Seq<u8>, ciphertext: Seq<u8>) -> Option<
    Seq<u8>,
>;

/// Relies on `rand::thread_rng` and `Rng::gen`: twelve bytes drawn from the
/// process-wide cryptographically secure generator. Nothing is promised of
/// their values; to the verifier two draws are unrelated.
#[verifier::external_body]
pub(crate) fn random_nonce() -> (r: Vec<u8>)
    ensures
        r@.len() == 12,
{
    let nonce: [u8; 12] = rand::thread_rng().gen();
    nonce.to_vec()
}

/// Relies on `aes_gcm::Aes256Gcm`: `new_from_slice` accepts a 32-byte key,
/// and `Aead::encrypt` with no associated data appends the 16-byte tag to
/// the encrypted payload. Plaintexts within the GCM message limit for a
/// 32-bit block counter (2^36 - 32 bytes) pass its length check and cannot
/// wrap the counter, so the call returns; longer ones are left out by the
/// `requires`, since near the limit the underlying keystream panics instead
/// of erring. Decrypting the output under the same key and nonce yields the
/// plaintext back.
#[verifier::external_body]
pub(crate) fn aes256_gcm_encrypt(key: &[u8], nonce: &[u8], plaintext: &[u8]) -> (r: Vec<u8>)
    requires
        key@.len() == 32,
        nonce@.len() == 12,
        plaintext@.len() <= 0xF_FFFF_FFE0,
    ensures
        r@ == aes256_gcm_seal(key@, nonce@, plaintext@),
        r@.len() == plaintext@.len() + 16,
        aes256_gcm_open(key@, nonce@, r@) == Some(plaintext@),
{
    let cipher = Aes256Gcm::new_from_slice(key).expect("Invalid key length");
    cipher.encrypt(aes_gcm::Nonce::from_slice(nonce), plaintext).expect("Encryption failed")
}

/// Relies on `aes_gcm::Aes256Gcm`: `Aead::decrypt` with no associated data
/// recovers a plaintext 16 bytes shorter than the ciphertext exactly when
/// the trailing tag authenticates it under this key and nonce, and rejects
/// any ciphertext shorter than the tag; its result depends on the key, the
/// nonce and the ciphertext alone. Ciphertexts longer than tag plus the GCM
/// message limit (2^36 - 16 bytes in all) are left out by the `requires`:
/// on such an input whose tag authenticates, the underlying keystream
/// panics instead of erring.
#[verifier::external_body]
pub(crate) fn aes256_gcm_decrypt(key: &[u8], nonce: &[u8], ciphertext: &[u8]) -> (r: Option<
    Vec<u8>,
>)
    requires
        key@.len() == 32,
        nonce@.len() == 12,
        ciphertext@.len() <= 0xF_FFFF_FFF0,
    ensures
        r is Some <==> aes256_gcm_open(key@, nonce@, ciphertext@) is Some,
        r matches Some(p) ==> aes256_gcm_open(key@, nonce@, ciphertext@) == Some(p@),
        r matches Some(p) ==> p@.len() + 16 == ciphertext@.len(),
        ciphertext@.len() < 16 ==> r is None,
{
    let cipher = match Aes256Gcm::new_from_slice(key) {
        Ok(c) => c,
        Err(_) => return None,
    };
    cipher.decrypt(aes_gcm::Nonce::from_slice(nonce), ciphertext).ok()
}

} // verus!
