//! Provisioning of a TLS server identity: load a persisted certificate and
//! PKCS#8 private key from PEM file contents, or generate and hand back a
//! fresh self-signed pair, and build a reusable TLS acceptor from the result.
//!
//! The library works on plain byte values; reading and writing the two
//! credential files is the caller's part.

pub mod acceptor;
pub mod error;
pub mod identity;
pub mod pem;
pub mod provision;
