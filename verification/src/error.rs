//! The ways in which unwrapping a query can fail.

use vstd::prelude::*;

verus! {

/// Why a wrapped query was not turned into a cleartext one.
///
/// The four kinds are kept apart so that a caller can count or rate-limit
/// each on its own: an unknown magic is routine during key rotation, a
/// failed decryption is not.
#[derive(Clone, Copy, Debug, PartialEq, Eq, Structural)]
pub enum Error {
    /// The input is too short to hold the envelope and an authentication tag.
    ShortPacket,
    /// No active encryption parameters carry the client magic of the query.
    UnknownMagic,
    /// The box did not authenticate under the selected key and nonce.
    DecryptionFailed,
    /// The primitive cannot process the input at all.
    InternalCryptoFailure,
}

impl Error {
    /// A short fixed description of the error kind.
    pub fn message(&self) -> (text: &'static str)
        ensures
            text@ == self.spec_message()@,
    {
        match self {
            Error::ShortPacket => "Short packet",
            Error::UnknownMagic => "Client magic not found",
            Error::DecryptionFailed => "Decryption failed",
            Error::InternalCryptoFailure => "Internal crypto failure",
        }
    }

    /// The description that [`Error::message`] returns.
    pub open spec fn spec_message(&self) -> &'static str {
        match self {
            Error::ShortPacket => "Short packet",
            Error::UnknownMagic => "Client magic not found",
            Error::DecryptionFailed => "Decryption failed",
            Error::InternalCryptoFailure => "Internal crypto failure",
        }
    }
}

} // verus!
