//! Building the reusable TLS server acceptor from a resolved identity.

use vstd::prelude::*;

use crate::error::CertError;
use crate::identity::Identity;

verus! {

#[verifier::external_type_specification]
#[verifier::external_body]
pub struct ExTlsAcceptor(tokio_rustls::TlsAcceptor);

/// Whether rustls accepts the given certificate and PKCS#8 key pair for a
/// server configuration: the key parses under a supported algorithm and
/// rustls finds no mismatch between its public half and the certificate's
/// (a consistency it cannot check counts as accepted); a function of the
/// bytes alone.
pub uninterp spec fn config_accepts(cert_der: Seq<u8>, key_der: Seq<u8>) -> bool;

/// Relies on rustls: `ServerConfig::builder_with_provider` with the ring
/// provider and `with_safe_default_protocol_versions` (safe defaults),
/// `with_no_client_auth` (clients present no certificate), and
/// `with_single_cert`, which succeeds exactly when the key parses and
/// rustls finds no mismatch with the certificate (an uncheckable
/// consistency counts as accepted); and on `tokio_rustls::TlsAcceptor::from`,
/// which wraps the finished configuration in a shareable acceptor.
#[verifier::external_body]
fn make_acceptor(cert_der: Vec<u8>, key_der: Vec<u8>) -> (r: Result<
    tokio_rustls::TlsAcceptor,
    String,
>)
    ensures
        r is Ok <==> config_accepts(cert_der@, key_der@),
{
    let cert = rustls::pki_types::CertificateDer::from(cert_der);
    let key = rustls::pki_types::PrivateKeyDer::from(
        rustls::pki_types::PrivatePkcs8KeyDer::from(key_der),
    );
    let provider = std::sync::Arc::new(rustls::crypto::ring::default_provider());
    let built = rustls::ServerConfig::builder_with_provider(provider)
        .with_safe_default_protocol_versions()
        .map_err(|e| format!("{e}"))?
        .with_no_client_auth()
        .with_single_cert(vec![cert], key);
    match built {
        Ok(config) => Ok(tokio_rustls::TlsAcceptor::from(std::sync::Arc::new(config))),
        Err(e) => Err(format!("{e}")),
    }
}

/// Build an immutable, reusable TLS server acceptor bound to the identity:
/// safe default cipher suites and protocol versions, no client certificate
/// verification, a single-certificate chain. Construction succeeds exactly
/// when the TLS layer accepts the pair; a rejected pair (an unsupported key,
/// or one that does not match the certificate) is a typed error, no panic.
pub fn build_acceptor(identity: Identity) -> (r: Result<tokio_rustls::TlsAcceptor, CertError>)
    ensures
        r is Ok <==> config_accepts(identity.cert_der@, identity.key_der@),
        (r matches Err(e) ==> e matches CertError::ConfigBuild(_)),
{
    match make_acceptor(identity.cert_der, identity.key_der) {
        Ok(a) => Ok(a),
        Err(m) => Err(CertError::ConfigBuild(m)),
    }
}

} // verus!
