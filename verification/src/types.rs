//! Data carried between the engine, its caller, and the peer.

use vstd::prelude::*;
use crate::error::Error;

verus! {

/// Configuration of the client that talks to the peer.
#[derive(Debug, Clone)]
pub struct ClientConfig {
    /// Base URL of the peer.
    pub server_url: String,
    /// Request timeout, in seconds.
    pub timeout: u64,
    /// Whether the TLS certificate of the peer is verified.
    pub verify_tls: bool,
}

impl Default for ClientConfig {
    /// The local development defaults.
    fn default() -> (r: Self)
        ensures
            r.server_url@ == "http://127.0.0.1:8080"@,
            r.timeout == 30,
            r.verify_tls == true,
    {
        ClientConfig {
            server_url: String::from_str("http://127.0.0.1:8080"),
            timeout: 30,
            verify_tls: true,
        }
    }
}

/// A user as the peer reports it.
#[derive(Debug, Clone)]
pub struct UserInfo {
    pub id: String,
    pub username: String,
    pub public_key: String,
    pub status: i32,
    pub created_at: String,
}

/// An authenticated session with the peer.
#[derive(Debug, Clone)]
pub struct Session {
    pub token: String,
    pub user_id: String,
    pub expires_at: String,
}

/// The client-held half of a split key: the secret share and the combined
/// public key that the peer reported for it.
#[derive(Debug, Clone)]
pub struct KeyPair {
    /// The client's secret share `d1`, as big-endian bytes.  Never leaves
    /// the process; only its curve-point commitment does.
    pub d1: Vec<u8>,
    /// The combined public key `Pa`, encoded as a 64-byte curve point.
    pub public_key: Vec<u8>,
    /// The user this key belongs to.
    pub user_id: String,
}

/// A finished SM2 signature: the pair of scalars `(r, s)`.
#[derive(Debug, Clone)]
pub struct Signature {
    pub r: Vec<u8>,
    pub s: Vec<u8>,
}

/// The envelope every peer response arrives in.  A non-zero `code` reports
/// a peer-side failure and must stop the protocol step before any
/// cryptographic computation proceeds.
#[derive(Debug, Clone)]
pub struct ApiResponse<T> {
    pub code: i32,
    pub message: String,
    pub data: Option<T>,
}

impl<T> ApiResponse<T> {
    /// Opens the envelope: a non-zero code becomes the peer's error, a
    /// missing body becomes a state error, and otherwise the body is
    /// handed out.
    pub fn into_data(self) -> (r: Result<T, Error>)
        ensures
            self.code != 0 ==> (r matches Err(Error::Api { code, message })
                && code == self.code && message == self.message),
            self.code == 0 && self.data is None ==> (r matches Err(Error::InvalidState(_))),
            self.code == 0 && self.data is Some ==> (r matches Ok(d) && d == self.data->0),
    {
        if self.code != 0 {
            Err(Error::Api { code: self.code, message: self.message })
        } else {
            match self.data {
                Some(d) => Ok(d),
                None => Err(Error::InvalidState(String::from_str("No data in response"))),
            }
        }
    }
}

/// What the peer returns at registration: its own commitment and the
/// combined public key, both base64-encoded.
#[derive(Debug, Clone)]
pub struct RegisterResponse {
    pub user_id: String,
    pub p2: String,
    pub public_key: String,
}

/// What the peer returns at login.
#[derive(Debug, Clone)]
pub struct LoginResponse {
    pub token: String,
    pub user_id: String,
    pub expires_at: String,
}

/// What the peer returns when a key is initialised for an existing account.
#[derive(Debug, Clone)]
pub struct KeyInitResponse {
    pub p2: String,
    pub public_key: String,
}

/// The peer's partial signature: `r`, `s2` and `s3`, base64-encoded scalars.
#[derive(Debug, Clone)]
pub struct SignResponse {
    pub r: String,
    pub s2: String,
    pub s3: String,
}

/// The peer's partial decryption: the point `t2`, base64-encoded.
#[derive(Debug, Clone)]
pub struct DecryptResponse {
    pub t2: String,
}

/// A user record inside a response envelope.
#[derive(Debug, Clone)]
pub struct UserInfoResponse {
    pub id: String,
    pub username: String,
    pub public_key: String,
    pub status: i32,
    pub created_at: String,
}

} // verus!
