//! Authenticated encryption of byte buffers into self-describing blobs.
//!
//! A blob is a fresh random nonce followed by the AES-256-GCM ciphertext
//! with its authentication tag; nothing but the key is needed to open it.

pub mod cipher;
pub mod seal;

pub use seal::DecryptError;
pub use seal::EncryptError;
pub use seal::fernet_decrypt;
pub use seal::fernet_encrypt;
