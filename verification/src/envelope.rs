//! The fixed layout in front of every wrapped query, and its parser.
//!
//! ```text
//! offset  length  field
//!      0       8  client magic
//!      8      32  client public key
//!     40      12  client half of the nonce
//!     52       n  box: authentication tag and encrypted query
//! ```

use crate::error::Error;
use vstd::prelude::*;

verus! {

/// Length of the client magic that names a resolver certificate.
pub const DNSCRYPT_CLIENT_MAGIC_SIZE: usize = 8;

/// Length of the client's Curve25519 public key.
pub const DNSCRYPT_CLIENT_PK_SIZE: usize = 32;

/// Length of the half of the nonce that the client chooses.
pub const DNSCRYPT_CLIENT_NONCE_SIZE: usize = 12;

/// Length of the nonce that the box is opened with.
pub const DNSCRYPT_FULL_NONCE_SIZE: usize = 24;

/// Length of the Poly1305 tag inside the box.
pub const DNSCRYPT_TAG_SIZE: usize = 16;

/// Length of a DNS message header.
pub const DNS_HEADER_SIZE: usize = 12;

/// Length of the three fixed fields in front of the box.
pub const DNSCRYPT_ENVELOPE_SIZE: usize = DNSCRYPT_CLIENT_MAGIC_SIZE + DNSCRYPT_CLIENT_PK_SIZE
    + DNSCRYPT_CLIENT_NONCE_SIZE;

/// The hard floor on the length of a wrapped query.
pub const DNSCRYPT_MIN_WRAPPED_SIZE: usize = DNSCRYPT_ENVELOPE_SIZE + DNS_HEADER_SIZE;

/// The client magic at the front of a wrapped query.
pub open spec fn magic_of(wrapped: Seq<u8>) -> Seq<u8> {
    wrapped.subrange(0, 8)
}

/// The client public key of a wrapped query.
pub open spec fn client_pk_of(wrapped: Seq<u8>) -> Seq<u8> {
    wrapped.subrange(8, 40)
}

/// The client half of the nonce of a wrapped query.
pub open spec fn client_nonce_of(wrapped: Seq<u8>) -> Seq<u8> {
    wrapped.subrange(40, 52)
}

/// The box of a wrapped query: everything behind the fixed fields.
pub open spec fn ciphertext_of(wrapped: Seq<u8>) -> Seq<u8> {
    wrapped.subrange(52, wrapped.len() as int)
}

/// Whether a wrapped query is refused for its length: it is under the hard
/// floor, or what is left behind the fixed fields cannot hold a tag.
pub open spec fn is_short(wrapped: Seq<u8>) -> bool {
    wrapped.len() < DNSCRYPT_MIN_WRAPPED_SIZE || wrapped.len() - DNSCRYPT_ENVELOPE_SIZE
        < DNSCRYPT_TAG_SIZE
}

/// A wrapped query carved into its four regions.
///
/// The three fixed fields are held by value; the box borrows the input.
pub struct Envelope<'a> {
    pub client_magic: [u8; 8],
    pub client_pk: [u8; 32],
    pub client_nonce: [u8; 12],
    pub ciphertext: &'a [u8],
}

impl<'a> Envelope<'a> {
    /// The bytes on the wire that this envelope was carved from.
    pub open spec fn wire(&self) -> Seq<u8> {
        self.client_magic@ + self.client_pk@ + self.client_nonce@ + self.ciphertext@
    }

    /// The four regions are those of `wrapped`, in order and without gaps.
    pub open spec fn carves(&self, wrapped: Seq<u8>) -> bool {
        &&& self.client_magic@ == magic_of(wrapped)
        &&& self.client_pk@ == client_pk_of(wrapped)
        &&& self.client_nonce@ == client_nonce_of(wrapped)
        &&& self.ciphertext@ == ciphertext_of(wrapped)
    }
}

/// Copies the `N` bytes of `bytes` that start at `start`.
fn copy_field<const N: usize>(bytes: &[u8], start: usize) -> (field: [u8; N])
    requires
        start + N <= bytes@.len(),
    ensures
        field@ == bytes@.subrange(start as int, start + N),
{
    let len = bytes.len();
    let mut field: [u8; N] = [0u8; N];
    let mut i: usize = 0;
    while i < N
        invariant
            i <= N,
            start + N <= len == bytes@.len(),
            forall|k: int| 0 <= k < i ==> field@[k] == bytes@[start + k],
        decreases N - i,
    {
        field[i] = bytes[start + i];
        i += 1;
    }
    field
}

/// Checks the length of a wrapped query and carves it at the fixed offsets.
///
/// The query is refused as short exactly when [`is_short`] says so; any other
/// input is carved, whatever its bytes are.
pub fn parse_envelope<'a>(wrapped_packet: &'a [u8]) -> (parsed: Result<Envelope<'a>, Error>)
    ensures
        is_short(wrapped_packet@) ==> parsed == Err::<Envelope<'a>, Error>(Error::ShortPacket),
        !is_short(wrapped_packet@) ==> parsed is Ok,
        parsed matches Ok(envelope) ==> {
            &&& envelope.carves(wrapped_packet@)
            &&& envelope.wire() == wrapped_packet@
            &&& envelope.ciphertext@.len() >= DNSCRYPT_TAG_SIZE
        },
{
    let len = wrapped_packet.len();
    if len < DNSCRYPT_MIN_WRAPPED_SIZE {
        return Err(Error::ShortPacket);
    }
    let ciphertext = vstd::slice::slice_subrange(wrapped_packet, DNSCRYPT_ENVELOPE_SIZE, len);
    if ciphertext.len() < DNSCRYPT_TAG_SIZE {
        return Err(Error::ShortPacket);
    }
    let envelope = Envelope {
        client_magic: copy_field::<8>(wrapped_packet, 0),
        client_pk: copy_field::<32>(wrapped_packet, DNSCRYPT_CLIENT_MAGIC_SIZE),
        client_nonce: copy_field::<12>(
            wrapped_packet,
            DNSCRYPT_CLIENT_MAGIC_SIZE + DNSCRYPT_CLIENT_PK_SIZE,
        ),
        ciphertext,
    };
    assert(envelope.wire() =~= wrapped_packet@);
    Ok(envelope)
}

} // verus!
