//! Error kinds of the collaborative engine.
//!
//! All failures inside the engine are local, synchronous and non-retryable:
//! retrying a signing round with a fresh nonce is a policy decision that
//! belongs to the caller.

use vstd::prelude::*;

verus! {

/// The `std::io::Error` type, declared so that it can stand in a field.
#[verifier::external_type_specification]
#[verifier::external_body]
pub struct ExIoError(std::io::Error);

/// What can go wrong in the engine or around it.
#[derive(Debug)]
pub enum Error {
    /// Invalid curve point, invalid scalar range, or an underlying math failure.
    Crypto(String),
    /// A transport failure, reported by the layer that ferries payloads.
    Network(String),
    /// A peer-reported failure: a non-zero code in the response envelope.
    Api { code: i32, message: String },
    /// A caller-supplied buffer of the wrong shape, e.g. a too-short ciphertext.
    InvalidParam(String),
    /// An operation was attempted in a state that does not allow it.
    InvalidState(String),
    /// A malformed fixed-width byte buffer or a failed base64 decode.
    Encoding(String),
    /// No authenticated session is present.
    NotAuthenticated,
    /// An I/O failure outside the engine.
    Io(std::io::Error),
}

} // verus!
