//! End-to-end scenarios: queries sealed by a client, unwrapped by a resolver.

use crypto_box::aead::Aead;
use crypto_box::{ChaChaBox, Nonce, PublicKey, SecretKey};
use dnscrypt_unseal::{decrypt, DNSCryptEncryptionParams, Error, ResolverKeypair};

const RESOLVER_SK: [u8; 32] = [0x01; 32];
const SECOND_RESOLVER_SK: [u8; 32] = [0x04; 32];
const CLIENT_SK: [u8; 32] = [0x03; 32];
const HALF_NONCE: [u8; 12] = [0x02; 12];
const MAGIC_ONE: [u8; 8] = *b"DCPROT01";
const MAGIC_TWO: [u8; 8] = *b"DCPROT02";

/// The public key of the resolver secret key `[0x01; 32]`.
const RESOLVER_PK: [u8; 32] = [
    0xa4, 0xe0, 0x92, 0x92, 0xb6, 0x51, 0xc2, 0x78, 0xb9, 0x77, 0x2c, 0x56, 0x9f, 0x5f, 0xa9, 0xbb,
    0x13, 0xd9, 0x06, 0xb4, 0x6a, 0xb6, 0x8c, 0x9d, 0xf9, 0xdc, 0x2b, 0x44, 0x09, 0xf8, 0xa2, 0x09,
];

/// The public key of the client secret key `[0x03; 32]`.
const CLIENT_PK: [u8; 32] = [
    0x5d, 0xfe, 0xdd, 0x3b, 0x6b, 0xd4, 0x7f, 0x6f, 0xa2, 0x8e, 0xe1, 0x5d, 0x96, 0x9d, 0x5b, 0xb0,
    0xea, 0x53, 0x77, 0x4d, 0x48, 0x8b, 0xda, 0xf9, 0xdf, 0x1c, 0x6e, 0x01, 0x24, 0xb3, 0xef, 0x22,
];

/// The box that libsodium's `crypto_box_curve25519xchacha20poly1305_easy`
/// makes of the bytes 0x00..=0x0b, from the client secret key to the resolver
/// public key, under the nonce of twelve 0x02 and twelve zero bytes.
const PINNED_BOX: [u8; 28] = [
    0x83, 0xad, 0x2e, 0xbe, 0x29, 0xaf, 0x98, 0x24, 0x28, 0x29, 0xac, 0x64, 0xa5, 0x13, 0xfb, 0x4f,
    0xbd, 0x73, 0xee, 0xa1, 0x54, 0x3d, 0x28, 0x99, 0x4f, 0x7b, 0x51, 0xd1,
];

/// The same for an empty plaintext: the tag alone.
const PINNED_EMPTY_BOX: [u8; 16] = [
    0x1d, 0x0f, 0x59, 0x54, 0x2d, 0x91, 0x7b, 0x31, 0x3e, 0xa0, 0x6a, 0x2c, 0x7a, 0xa1, 0x38, 0xb5,
];

fn public_of(secret: [u8; 32]) -> [u8; 32] {
    SecretKey::from(secret).public_key().to_bytes()
}

fn params(magic: [u8; 8], secret: [u8; 32]) -> DNSCryptEncryptionParams {
    DNSCryptEncryptionParams::new(magic, ResolverKeypair::new(secret, public_of(secret)))
}

fn seal(plaintext: &[u8], client_sk: [u8; 32], resolver_pk: [u8; 32], nonce: [u8; 24]) -> Vec<u8> {
    ChaChaBox::new(&PublicKey::from(resolver_pk), &SecretKey::from(client_sk))
        .encrypt(Nonce::from_slice(&nonce), plaintext)
        .unwrap()
}

fn nonce_of(half: [u8; 12]) -> [u8; 24] {
    let mut nonce = [0u8; 24];
    nonce[..12].copy_from_slice(&half);
    nonce
}

fn wrap(magic: [u8; 8], client_pk: [u8; 32], half: [u8; 12], sealed: &[u8]) -> Vec<u8> {
    let mut wrapped = Vec::new();
    wrapped.extend_from_slice(&magic);
    wrapped.extend_from_slice(&client_pk);
    wrapped.extend_from_slice(&half);
    wrapped.extend_from_slice(sealed);
    wrapped
}

fn query() -> Vec<u8> {
    (0u8..12).collect()
}

fn happy_packet() -> Vec<u8> {
    let sealed = seal(&query(), CLIENT_SK, public_of(RESOLVER_SK), nonce_of(HALF_NONCE));
    wrap(MAGIC_ONE, public_of(CLIENT_SK), HALF_NONCE, &sealed)
}

#[test]
fn happy_path() {
    let set = [params(MAGIC_ONE, RESOLVER_SK)];
    let wrapped = happy_packet();
    assert_eq!(wrapped.len(), 8 + 32 + 12 + 28);
    assert_eq!(decrypt(&wrapped, &set), Ok(query()));
}

#[test]
fn happy_path_layout_is_bit_exact() {
    let wrapped = happy_packet();
    assert_eq!(&wrapped[..8], b"DCPROT01");
    assert_eq!(&wrapped[8..40], &CLIENT_PK);
    assert_eq!(&wrapped[40..52], &[0x02u8; 12]);
    assert_eq!(&wrapped[52..], &PINNED_BOX);
}

#[test]
fn pinned_libsodium_box_is_unwrapped() {
    assert_eq!(public_of(RESOLVER_SK), RESOLVER_PK);
    assert_eq!(public_of(CLIENT_SK), CLIENT_PK);
    let set = [DNSCryptEncryptionParams::new(
        MAGIC_ONE,
        ResolverKeypair::new(RESOLVER_SK, RESOLVER_PK),
    )];
    let wrapped = wrap(MAGIC_ONE, CLIENT_PK, HALF_NONCE, &PINNED_BOX);
    assert_eq!(
        decrypt(&wrapped, &set),
        Ok(vec![0x00, 0x01, 0x02, 0x03, 0x04, 0x05, 0x06, 0x07, 0x08, 0x09, 0x0a, 0x0b])
    );
}

#[test]
fn pinned_libsodium_empty_box_is_unwrapped() {
    let set = [params(MAGIC_ONE, RESOLVER_SK)];
    let wrapped = wrap(MAGIC_ONE, CLIENT_PK, HALF_NONCE, &PINNED_EMPTY_BOX);
    assert_eq!(decrypt(&wrapped, &set), Ok(Vec::new()));
}

#[test]
fn unknown_magic() {
    let set = [params(MAGIC_ONE, RESOLVER_SK)];
    let mut wrapped = happy_packet();
    wrapped[0] ^= 0x01;
    assert_eq!(decrypt(&wrapped, &set), Err(Error::UnknownMagic));
    assert_eq!(set[0].client_magic(), MAGIC_ONE);
    assert_eq!(set[0].resolver_kp().secret_key(), &RESOLVER_SK);
    assert_eq!(set[0].resolver_kp().public_key(), &RESOLVER_PK);
}

#[test]
fn unknown_magic_for_every_flipped_magic_byte() {
    let set = [params(MAGIC_ONE, RESOLVER_SK)];
    for at in 0..8 {
        let mut wrapped = happy_packet();
        wrapped[at] = !wrapped[at];
        assert_eq!(decrypt(&wrapped, &set), Err(Error::UnknownMagic));
    }
}

#[test]
fn tag_tamper() {
    let set = [params(MAGIC_ONE, RESOLVER_SK)];
    let mut wrapped = happy_packet();
    let last = wrapped.len() - 1;
    wrapped[last] ^= 0x01;
    assert_eq!(decrypt(&wrapped, &set), Err(Error::DecryptionFailed));
}

#[test]
fn truncation() {
    let set = [params(MAGIC_ONE, RESOLVER_SK)];
    let mut wrapped = happy_packet();
    wrapped.truncate(63);
    assert_eq!(decrypt(&wrapped, &set), Err(Error::ShortPacket));
}

#[test]
fn truncation_inside_the_box_is_a_failed_decryption() {
    let set = [params(MAGIC_ONE, RESOLVER_SK)];
    let mut wrapped = happy_packet();
    wrapped.truncate(79);
    assert_eq!(decrypt(&wrapped, &set), Err(Error::DecryptionFailed));
    wrapped.truncate(68);
    assert_eq!(decrypt(&wrapped, &set), Err(Error::DecryptionFailed));
}

#[test]
fn rotation_overlap() {
    let set = [params(MAGIC_ONE, RESOLVER_SK), params(MAGIC_TWO, SECOND_RESOLVER_SK)];
    let sealed = seal(&query(), CLIENT_SK, public_of(SECOND_RESOLVER_SK), nonce_of(HALF_NONCE));

    let to_second = wrap(MAGIC_TWO, CLIENT_PK, HALF_NONCE, &sealed);
    assert_eq!(decrypt(&to_second, &set), Ok(query()));

    let stamped_first = wrap(MAGIC_ONE, CLIENT_PK, HALF_NONCE, &sealed);
    assert_eq!(decrypt(&stamped_first, &set), Err(Error::DecryptionFailed));
}

#[test]
fn rotation_overlap_first_key_still_answers() {
    let set = [params(MAGIC_ONE, RESOLVER_SK), params(MAGIC_TWO, SECOND_RESOLVER_SK)];
    assert_eq!(decrypt(&happy_packet(), &set), Ok(query()));
    let swapped = [params(MAGIC_TWO, SECOND_RESOLVER_SK), params(MAGIC_ONE, RESOLVER_SK)];
    assert_eq!(decrypt(&happy_packet(), &swapped), Ok(query()));
}

#[test]
fn empty_inner() {
    let set = [params(MAGIC_ONE, RESOLVER_SK)];
    let sealed = seal(&[], CLIENT_SK, public_of(RESOLVER_SK), nonce_of(HALF_NONCE));
    assert_eq!(sealed.len(), 16);
    assert_eq!(sealed, PINNED_EMPTY_BOX);
    let wrapped = wrap(MAGIC_ONE, CLIENT_PK, HALF_NONCE, &sealed);
    assert_eq!(wrapped.len(), 68);
    assert_eq!(decrypt(&wrapped, &set), Ok(Vec::new()));
}

#[test]
fn empty_params_set_knows_no_magic() {
    let set: [DNSCryptEncryptionParams; 0] = [];
    assert_eq!(decrypt(&happy_packet(), &set), Err(Error::UnknownMagic));
}
