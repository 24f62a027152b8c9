//! Server-side unwrapping of DNSCrypt client queries.
//!
//! A wrapped query is a fixed-layout envelope (client magic, client public
//! key, client half of the nonce) in front of a Curve25519-XChaCha20-Poly1305
//! box. This crate checks and carves the envelope, picks the resolver key
//! that the client magic names, assembles the box nonce and opens the box.

pub mod decrypt;
pub mod envelope;
pub mod error;
pub mod params;
pub mod unseal;

pub use decrypt::decrypt;
pub use envelope::{
    parse_envelope, Envelope, DNSCRYPT_CLIENT_MAGIC_SIZE, DNSCRYPT_CLIENT_NONCE_SIZE,
    DNSCRYPT_CLIENT_PK_SIZE, DNSCRYPT_FULL_NONCE_SIZE, DNSCRYPT_MIN_WRAPPED_SIZE, DNSCRYPT_TAG_SIZE,
    DNS_HEADER_SIZE,
};
pub use error::Error;
pub use params::{select_params, DNSCryptEncryptionParams, ResolverKeypair};
pub use unseal::{full_nonce, plaintext_or_failure, unseal, DNSCRYPT_MAX_CIPHERTEXT_SIZE};
