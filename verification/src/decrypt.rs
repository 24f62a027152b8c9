//! The whole path from a wrapped query to the cleartext one.

use crate::envelope::{
    ciphertext_of, client_nonce_of, client_pk_of, is_short, magic_of, parse_envelope,
    DNSCRYPT_ENVELOPE_SIZE, DNSCRYPT_MIN_WRAPPED_SIZE, DNSCRYPT_TAG_SIZE,
};
use crate::error::Error;
use crate::params::{
    distinct_magics, has_magic, lemma_distinct_match_is_selected, select_params, selected_index,
    DNSCryptEncryptionParams,
};
use crate::unseal::{result_bytes, unseal, unsealed};
use vstd::prelude::*;

verus! {

/// What unwrapping a query yields, as a function of its bytes and of the
/// active encryption parameters.
///
/// The three steps fail in this order: the length check, then the lookup of
/// the client magic, then the unsealing under the selected record's key.
pub open spec fn unwrapped(
    wrapped: Seq<u8>,
    params: Seq<DNSCryptEncryptionParams>,
) -> Result<Seq<u8>, Error> {
    if is_short(wrapped) {
        Err(Error::ShortPacket)
    } else if !has_magic(params, magic_of(wrapped)) {
        Err(Error::UnknownMagic)
    } else {
        unsealed(
            params[selected_index(params, magic_of(wrapped))].secret_bytes(),
            client_pk_of(wrapped),
            client_nonce_of(wrapped),
            ciphertext_of(wrapped),
        )
    }
}

/// Unwraps a client query: checks and carves the envelope, selects the
/// encryption parameters that the client magic names, and opens the box
/// under their secret key.
///
/// Both arguments are only read. The result is [`unwrapped`] of them, so the
/// same query against the same parameters always ends the same way. A
/// cleartext query is shorter than the wrapped one by the envelope and the
/// tag; whether it holds a DNS header is for the caller to check.
pub fn decrypt(
    wrapped_packet: &[u8],
    dnscrypt_encryption_params_set: &[DNSCryptEncryptionParams],
) -> (result: Result<Vec<u8>, Error>)
    ensures
        result_bytes(result) == unwrapped(wrapped_packet@, dnscrypt_encryption_params_set@),
        wrapped_packet@.len() < DNSCRYPT_MIN_WRAPPED_SIZE ==> result == Err::<Vec<u8>, Error>(
            Error::ShortPacket,
        ),
        result matches Ok(packet) ==> packet@.len() + DNSCRYPT_ENVELOPE_SIZE + DNSCRYPT_TAG_SIZE
            == wrapped_packet@.len(),
{
    let envelope = match parse_envelope(wrapped_packet) {
        Ok(envelope) => envelope,
        Err(e) => {
            return Err(e);
        },
    };
    let dnscrypt_encryption_params = match select_params(
        &envelope.client_magic,
        dnscrypt_encryption_params_set,
    ) {
        Ok(params) => params,
        Err(e) => {
            return Err(e);
        },
    };
    let resolver_kp = dnscrypt_encryption_params.resolver_kp();
    unseal(
        resolver_kp.secret_key(),
        &envelope.client_pk,
        &envelope.client_nonce,
        envelope.ciphertext,
    )
}

/// Length floor: a query under the hard floor is refused as short whatever
/// the encryption parameters are; they are not consulted.
pub proof fn lemma_short_packet_whatever_the_params(
    wrapped: Seq<u8>,
    params: Seq<DNSCryptEncryptionParams>,
)
    requires
        wrapped.len() < DNSCRYPT_MIN_WRAPPED_SIZE,
    ensures
        unwrapped(wrapped, params) == Err::<Seq<u8>, Error>(Error::ShortPacket),
{
}

/// A query of sufficient length ends in an unknown magic exactly when no
/// record carries its leading eight bytes; a failure of the box is never
/// reported as one.
pub proof fn lemma_unknown_magic_iff_no_record(
    wrapped: Seq<u8>,
    params: Seq<DNSCryptEncryptionParams>,
)
    requires
        !is_short(wrapped),
    ensures
        unwrapped(wrapped, params) == Err::<Seq<u8>, Error>(Error::UnknownMagic) <==> !has_magic(
            params,
            magic_of(wrapped),
        ),
{
}

/// Where the magics are distinct, the record that carries the magic of the
/// query is the only one that does, and the query is unsealed under its key:
/// the other records have no part in the result.
pub proof fn lemma_magic_selects_one_record(
    wrapped: Seq<u8>,
    params: Seq<DNSCryptEncryptionParams>,
    i: int,
)
    requires
        distinct_magics(params),
        !is_short(wrapped),
        0 <= i < params.len(),
        params[i].magic() == magic_of(wrapped),
    ensures
        forall|j: int|
            0 <= j < params.len() && j != i ==> #[trigger] params[j].magic() != magic_of(wrapped),
        unwrapped(wrapped, params) == unsealed(
            params[i].secret_bytes(),
            client_pk_of(wrapped),
            client_nonce_of(wrapped),
            ciphertext_of(wrapped),
        ),
{
    lemma_distinct_match_is_selected(params, magic_of(wrapped), i);
}

/// Magic selectivity: among records with distinct magics, a query whose box
/// opens under the key of whichever record carries its magic is unwrapped
/// exactly when its leading eight bytes are the magic of one record, and
/// then of no other.
pub proof fn lemma_magic_selectivity(wrapped: Seq<u8>, params: Seq<DNSCryptEncryptionParams>)
    requires
        distinct_magics(params),
        !is_short(wrapped),
        forall|i: int|
            0 <= i < params.len() && #[trigger] params[i].magic() == magic_of(wrapped) ==> unsealed(
                params[i].secret_bytes(),
                client_pk_of(wrapped),
                client_nonce_of(wrapped),
                ciphertext_of(wrapped),
            ) is Ok,
    ensures
        unwrapped(wrapped, params) is Ok <==> exists|i: int|
            {
                &&& 0 <= i < params.len()
                &&& #[trigger] params[i].magic() == magic_of(wrapped)
                &&& forall|j: int|
                    0 <= j < params.len() && j != i ==> #[trigger] params[j].magic() != magic_of(
                        wrapped,
                    )
            },
{
    if has_magic(params, magic_of(wrapped)) {
        let i = choose|i: int|
            0 <= i < params.len() && #[trigger] params[i].magic() == magic_of(wrapped);
        lemma_magic_selects_one_record(wrapped, params, i);
    }
}

/// Purity: the outcome of [`decrypt`] is a function of the query and of the
/// parameters. Two calls on the same inputs, in whatever order or at the
/// same time, end with the same plaintext or with the same error.
pub proof fn lemma_same_inputs_same_outcome(
    wrapped: Seq<u8>,
    params: Seq<DNSCryptEncryptionParams>,
    first: Result<Vec<u8>, Error>,
    second: Result<Vec<u8>, Error>,
)
    requires
        result_bytes(first) == unwrapped(wrapped, params),
        result_bytes(second) == unwrapped(wrapped, params),
    ensures
        result_bytes(first) == result_bytes(second),
        first is Err ==> first == second,
{
}

} // verus!
