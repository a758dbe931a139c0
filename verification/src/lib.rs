//! Client-side engine for a two-party (collaborative) SM2 signature and
//! decryption scheme.
//!
//! A private key is split into a client share `d1` and a server share `d2`;
//! the two sides jointly produce standard SM2 signatures and decrypt SM2
//! ciphertexts without either side learning the other's share.  This crate
//! holds the client half: the curve arithmetic, the fixed-width encodings,
//! the hash and key-derivation routines, and the prepare/complete halves of
//! the signing and decryption rounds.  Network transport and session
//! handling live outside the crate and only ferry the byte payloads that
//! these functions produce and consume.

pub mod bignum;
pub mod bytes_spec;
pub mod codec;
pub mod curve;
pub mod error;
pub mod hash;
pub mod protocol;
pub mod types;

pub use error::Error;
pub use protocol::CoSignProtocol;
pub use protocol::base64_decode;
pub use protocol::base64_encode;
pub use types::ApiResponse;
pub use types::ClientConfig;
pub use types::DecryptResponse;
pub use types::KeyInitResponse;
pub use types::KeyPair;
pub use types::LoginResponse;
pub use types::RegisterResponse;
pub use types::Session;
pub use types::SignResponse;
pub use types::Signature;
pub use types::UserInfo;
pub use types::UserInfoResponse;
