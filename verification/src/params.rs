//! The resolver's active encryption parameters, and the selection of the
//! record that a client magic names.

use crate::error::Error;
use vstd::prelude::*;
use zeroize::Zeroize;

verus! {

/// Overwrites a secret key with zeros, with `Zeroize::zeroize` of the
/// `zeroize` crate, whose writes the compiler may not drop.
///
/// Trusted, not proved: afterwards every byte of the key is zero.
#[verifier::external_body]
fn wipe(secret: &mut [u8; 32])
    ensures
        forall|i: int| 0 <= i < 32 ==> final(secret)@[i] == 0,
    opens_invariants none
    no_unwind
{
    secret.zeroize();
}

/// A resolver's short-term Curve25519 key pair.
///
/// The pair owns its secret bytes: the fields are private, the type is not
/// `Clone`, and the secret key is erased when the pair is dropped.
pub struct ResolverKeypair {
    secret_key: [u8; 32],
    public_key: [u8; 32],
}

impl ResolverKeypair {
    /// The secret key of the pair.
    pub closed spec fn secret_bytes(&self) -> Seq<u8> {
        self.secret_key@
    }

    /// The public key of the pair.
    pub closed spec fn public_bytes(&self) -> Seq<u8> {
        self.public_key@
    }

    /// Binds a secret key to the public key that was published for it.
    pub fn new(secret_key: [u8; 32], public_key: [u8; 32]) -> (pair: Self)
        ensures
            pair.secret_bytes() == secret_key@,
            pair.public_bytes() == public_key@,
    {
        ResolverKeypair { secret_key, public_key }
    }

    /// The secret key, borrowed.
    pub fn secret_key(&self) -> (key: &[u8; 32])
        ensures
            key@ == self.secret_bytes(),
    {
        &self.secret_key
    }

    /// The public key, borrowed.
    pub fn public_key(&self) -> (key: &[u8; 32])
        ensures
            key@ == self.public_bytes(),
    {
        &self.public_key
    }

    /// Erases the secret key in place, ahead of the drop that would do it;
    /// the public key stays.
    pub fn erase(&mut self)
        ensures
            final(self).secret_bytes() == Seq::new(32, |i: int| 0u8),
            final(self).public_bytes() == old(self).public_bytes(),
        opens_invariants none
        no_unwind
    {
        wipe(&mut self.secret_key);
        assert(self.secret_key@ =~= Seq::new(32, |i: int| 0u8));
    }
}

impl Drop for ResolverKeypair {
    /// Erases the secret key before the memory is given back.
    fn drop(&mut self)
        opens_invariants none
        no_unwind
    {
        self.erase();
    }
}

/// The encryption parameters of one active certificate: the client magic
/// that names it and the key pair that answers to it.
pub struct DNSCryptEncryptionParams {
    client_magic: [u8; 8],
    resolver_kp: ResolverKeypair,
}

impl DNSCryptEncryptionParams {
    /// The client magic of the record.
    pub closed spec fn magic(&self) -> Seq<u8> {
        self.client_magic@
    }

    /// The key pair of the record.
    pub closed spec fn keypair(&self) -> ResolverKeypair {
        self.resolver_kp
    }

    /// The secret key that queries addressed to this record are opened with.
    pub open spec fn secret_bytes(&self) -> Seq<u8> {
        self.keypair().secret_bytes()
    }

    /// Binds a client magic to a resolver key pair.
    pub fn new(client_magic: [u8; 8], resolver_kp: ResolverKeypair) -> (params: Self)
        ensures
            params.magic() == client_magic@,
            params.keypair() == resolver_kp,
    {
        DNSCryptEncryptionParams { client_magic, resolver_kp }
    }

    /// The client magic, by value: it is public material.
    pub fn client_magic(&self) -> (magic: [u8; 8])
        ensures
            magic@ == self.magic(),
    {
        self.client_magic
    }

    /// The key pair, borrowed.
    pub fn resolver_kp(&self) -> (pair: &ResolverKeypair)
        ensures
            *pair == self.keypair(),
    {
        &self.resolver_kp
    }
}

/// Whether some record of `params` carries `magic`.
pub open spec fn has_magic(params: Seq<DNSCryptEncryptionParams>, magic: Seq<u8>) -> bool {
    exists|i: int| 0 <= i < params.len() && #[trigger] params[i].magic() == magic
}

/// Whether `i` is the position of the first record of `params` that carries
/// `magic`.
pub open spec fn is_first_match(
    params: Seq<DNSCryptEncryptionParams>,
    magic: Seq<u8>,
    i: int,
) -> bool {
    &&& 0 <= i < params.len()
    &&& params[i].magic() == magic
    &&& forall|j: int| 0 <= j < i ==> #[trigger] params[j].magic() != magic
}

/// The position of the record that `magic` selects: the first that carries
/// it. Meaningful only where [`has_magic`] holds.
pub open spec fn selected_index(params: Seq<DNSCryptEncryptionParams>, magic: Seq<u8>) -> int {
    choose|i: int| is_first_match(params, magic, i)
}

/// Whether no two records of `params` carry the same client magic.
pub open spec fn distinct_magics(params: Seq<DNSCryptEncryptionParams>) -> bool {
    forall|i: int, j: int|
        0 <= i < j < params.len() ==> #[trigger] params[i].magic() != #[trigger] params[j].magic()
}

/// A first match is the selected record: there is no other first match.
pub proof fn lemma_first_match_is_selected(
    params: Seq<DNSCryptEncryptionParams>,
    magic: Seq<u8>,
    i: int,
)
    requires
        is_first_match(params, magic, i),
    ensures
        has_magic(params, magic),
        selected_index(params, magic) == i,
{
    let chosen = selected_index(params, magic);
    assert(is_first_match(params, magic, chosen));
    if chosen < i {
        assert(params[chosen].magic() != magic);
    } else if i < chosen {
        assert(params[i].magic() != magic);
    }
}

/// Where the magics are distinct, any record that carries `magic` is the
/// selected one: the order of the records does not matter.
pub proof fn lemma_distinct_match_is_selected(
    params: Seq<DNSCryptEncryptionParams>,
    magic: Seq<u8>,
    i: int,
)
    requires
        distinct_magics(params),
        0 <= i < params.len(),
        params[i].magic() == magic,
    ensures
        has_magic(params, magic),
        selected_index(params, magic) == i,
        forall|j: int| 0 <= j < params.len() && j != i ==> #[trigger] params[j].magic() != magic,
{
    assert forall|j: int| 0 <= j < params.len() && j != i implies #[trigger] params[j].magic()
        != magic by {
        if j < i {
            assert(params[j].magic() != params[i].magic());
        } else {
            assert(params[i].magic() != params[j].magic());
        }
    }
    lemma_first_match_is_selected(params, magic, i);
}

/// Compares two client magics byte by byte. The magic is public, so the
/// comparison stops at the first difference.
fn same_magic(a: &[u8; 8], b: &[u8; 8]) -> (same: bool)
    ensures
        same <==> a@ == b@,
{
    let mut i: usize = 0;
    while i < 8
        invariant
            i <= 8,
            forall|k: int| 0 <= k < i ==> a@[k] == b@[k],
        decreases 8 - i,
    {
        if a[i] != b[i] {
            return false;
        }
        i += 1;
    }
    assert(a@ =~= b@);
    true
}

/// Finds the record that `client_magic` names, by a scan from the front.
///
/// The lookup fails exactly when no record carries the magic, and then with
/// [`Error::UnknownMagic`]; otherwise it lends the first record that does.
pub fn select_params<'a>(
    client_magic: &[u8; 8],
    params_set: &'a [DNSCryptEncryptionParams],
) -> (selected: Result<&'a DNSCryptEncryptionParams, Error>)
    ensures
        match selected {
            Ok(params) => {
                &&& has_magic(params_set@, client_magic@)
                &&& *params == params_set@[selected_index(params_set@, client_magic@)]
            },
            Err(e) => !has_magic(params_set@, client_magic@) && e == Error::UnknownMagic,
        },
{
    let mut i: usize = 0;
    while i < params_set.len()
        invariant
            i <= params_set@.len(),
            forall|j: int| 0 <= j < i ==> #[trigger] params_set@[j].magic() != client_magic@,
        decreases params_set@.len() - i,
    {
        let params = &params_set[i];
        let magic = params.client_magic();
        if same_magic(&magic, client_magic) {
            proof {
                lemma_first_match_is_selected(params_set@, client_magic@, i as int);
            }
            return Ok(params);
        }
        i += 1;
    }
    Err(Error::UnknownMagic)
}

} // verus!
