//! Opening the box of a wrapped query.
//!
//! The box is the Curve25519-XChaCha20-Poly1305 construction: an X25519
//! agreement between the resolver's secret key and the client's public key,
//! a key derived from it with HChaCha20, and XChaCha20-Poly1305 under that
//! key, without associated data. The construction itself is the work of the
//! `crypto_box` crate; this module owns the nonce and the error mapping
//! around it.

use crate::envelope::{DNSCRYPT_CLIENT_NONCE_SIZE, DNSCRYPT_FULL_NONCE_SIZE, DNSCRYPT_TAG_SIZE};
use crate::error::Error;
use crypto_box::aead::Aead;
use crypto_box::{ChaChaBox, Nonce, PublicKey, SecretKey};
use vstd::prelude::*;

verus! {

/// The longest box that is handed to the primitive.
///
/// The XChaCha20 keystream behind one nonce is finite; a box of up to this
/// many bytes stays far inside it on every machine.
pub const DNSCRYPT_MAX_CIPHERTEXT_SIZE: usize = 0xffff_ffff;

/// What opening a box yields: the plaintext where the box authenticates
/// under the key agreed between `secret_key` and `public_key` and under
/// `nonce`, and nothing where it does not.
pub uninterp spec fn box_opened(
    secret_key: Seq<u8>,
    public_key: Seq<u8>,
    nonce: Seq<u8>,
    ciphertext: Seq<u8>,
) -> Option<Seq<u8>>;

/// The bytes of an opened box, where there are any.
pub open spec fn opened_bytes(opened: Option<Vec<u8>>) -> Option<Seq<u8>> {
    match opened {
        Some(plaintext) => Some(plaintext@),
        None => None,
    }
}

/// The bytes of a result, where it holds any.
pub open spec fn result_bytes(result: Result<Vec<u8>, Error>) -> Result<Seq<u8>, Error> {
    match result {
        Ok(plaintext) => Ok(plaintext@),
        Err(e) => Err(e),
    }
}

/// Opens a box with `crypto_box`: `ChaChaBox::new` on the two keys, then
/// `Aead::decrypt` on the nonce and the box.
///
/// Trusted, not proved: the outcome is a function of the four arguments
/// alone, and an opened box is shorter than the box by the 16 bytes of its
/// tag. The length bound keeps the box inside the keystream, beyond which
/// the cipher would panic.
#[verifier::external_body]
fn open_box(
    secret_key: &[u8; 32],
    public_key: &[u8; 32],
    nonce: &[u8; 24],
    ciphertext: &[u8],
) -> (opened: Option<Vec<u8>>)
    requires
        ciphertext@.len() <= DNSCRYPT_MAX_CIPHERTEXT_SIZE,
    ensures
        opened_bytes(opened) == box_opened(secret_key@, public_key@, nonce@, ciphertext@),
        opened matches Some(plaintext) ==> plaintext@.len() + DNSCRYPT_TAG_SIZE
            == ciphertext@.len(),
{
    let shared = ChaChaBox::new(&PublicKey::from(*public_key), &SecretKey::from(*secret_key));
    shared.decrypt(Nonce::from_slice(nonce), ciphertext).ok()
}

/// `n` zero bytes.
pub open spec fn zero_bytes(n: nat) -> Seq<u8> {
    Seq::new(n, |i: int| 0u8)
}

/// The nonce that a box from a client is opened with: the client's half,
/// then twelve zero bytes.
pub open spec fn full_nonce_of(client_nonce: Seq<u8>) -> Seq<u8> {
    client_nonce + zero_bytes(12)
}

/// Builds the 24-byte box nonce from the client's 12-byte half.
///
/// The second half is zero in this direction, always: it is neither chosen
/// by the client nor drawn by the resolver.
pub fn full_nonce(client_nonce: &[u8; 12]) -> (nonce: [u8; 24])
    ensures
        nonce@ == full_nonce_of(client_nonce@),
        nonce@.subrange(0, 12) == client_nonce@,
        forall|i: int| 12 <= i < 24 ==> nonce@[i] == 0,
{
    let mut nonce: [u8; 24] = [0u8; 24];
    let mut i: usize = 0;
    while i < DNSCRYPT_CLIENT_NONCE_SIZE
        invariant
            i <= 12,
            forall|k: int| 0 <= k < i ==> nonce@[k] == client_nonce@[k],
            forall|k: int| 12 <= k < 24 ==> nonce@[k] == 0,
        decreases 12 - i,
    {
        nonce[i] = client_nonce[i];
        i += 1;
    }
    assert(nonce@ =~= full_nonce_of(client_nonce@));
    assert(nonce@.subrange(0, 12) =~= client_nonce@);
    nonce
}

/// Nonce construction: the nonce of a 12-byte client half has 24 bytes, of
/// which the first twelve are the client's and the last twelve are zero.
pub proof fn lemma_full_nonce_layout(client_nonce: Seq<u8>)
    requires
        client_nonce.len() == DNSCRYPT_CLIENT_NONCE_SIZE,
    ensures
        full_nonce_of(client_nonce).len() == DNSCRYPT_FULL_NONCE_SIZE,
        full_nonce_of(client_nonce).subrange(0, 12) == client_nonce,
        forall|i: int| 12 <= i < 24 ==> full_nonce_of(client_nonce)[i] == 0,
{
    assert(full_nonce_of(client_nonce).subrange(0, 12) =~= client_nonce);
}

/// What an attempt to open a box comes to: the plaintext, or a failed
/// decryption.
pub open spec fn plaintext_or_failure_of(opened: Option<Seq<u8>>) -> Result<Seq<u8>, Error> {
    match opened {
        Some(plaintext) => Ok(plaintext),
        None => Err(Error::DecryptionFailed),
    }
}

/// Turns the outcome of opening a box into the result of the unsealing: a
/// box that did not authenticate is a failed decryption, whatever the
/// reason; an opened one is handed on untouched.
pub fn plaintext_or_failure(opened: Option<Vec<u8>>) -> (result: Result<Vec<u8>, Error>)
    ensures
        result_bytes(result) == plaintext_or_failure_of(opened_bytes(opened)),
        opened matches Some(plaintext) ==> result == Ok::<Vec<u8>, Error>(plaintext),
{
    match opened {
        Some(plaintext) => Ok(plaintext),
        None => Err(Error::DecryptionFailed),
    }
}

/// What unsealing a box yields, as a function of the resolver's secret key
/// and of the three regions of the envelope that follow the magic.
pub open spec fn unsealed(
    secret_key: Seq<u8>,
    client_pk: Seq<u8>,
    client_nonce: Seq<u8>,
    ciphertext: Seq<u8>,
) -> Result<Seq<u8>, Error> {
    if ciphertext.len() > DNSCRYPT_MAX_CIPHERTEXT_SIZE {
        Err(Error::InternalCryptoFailure)
    } else {
        plaintext_or_failure_of(
            box_opened(secret_key, client_pk, full_nonce_of(client_nonce), ciphertext),
        )
    }
}

/// Opens the box of a query under the resolver's secret key.
///
/// The nonce is the client's half followed by zeros. A box beyond
/// [`DNSCRYPT_MAX_CIPHERTEXT_SIZE`] is not handed to the primitive and ends
/// in [`Error::InternalCryptoFailure`]; one that does not authenticate ends
/// in [`Error::DecryptionFailed`]. A plaintext is shorter than its box by
/// the tag.
pub fn unseal(
    secret_key: &[u8; 32],
    client_pk: &[u8; 32],
    client_nonce: &[u8; 12],
    ciphertext: &[u8],
) -> (result: Result<Vec<u8>, Error>)
    ensures
        result_bytes(result) == unsealed(secret_key@, client_pk@, client_nonce@, ciphertext@),
        result matches Ok(plaintext) ==> plaintext@.len() + DNSCRYPT_TAG_SIZE
            == ciphertext@.len(),
{
    if ciphertext.len() > DNSCRYPT_MAX_CIPHERTEXT_SIZE {
        return Err(Error::InternalCryptoFailure);
    }
    let nonce = full_nonce(client_nonce);
    let opened = open_box(secret_key, client_pk, &nonce, ciphertext);
    plaintext_or_failure(opened)
}

} // verus!
