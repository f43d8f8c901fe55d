//! The resolved server identity, and generation of a fresh self-signed one.

use vstd::prelude::*;

use crate::acceptor::config_accepts;
use crate::error::CertError;

verus! {

/// A fully resolved server identity: a DER-encoded X.509 certificate and
/// the DER-encoded PKCS#8 private key it was issued for. The pairing is
/// guaranteed by construction: both parts come from the same load, or from
/// the same generation event.
#[derive(Debug, Clone, PartialEq, Eq)]
pub struct Identity {
    pub cert_der: Vec<u8>,
    pub key_der: Vec<u8>,
}

/// A freshly generated self-signed credential: DER for immediate use by
/// the TLS layer, and the PEM text of the same bytes for persistence.
#[derive(Debug, Clone, PartialEq, Eq)]
pub struct GeneratedIdentity {
    pub cert_der: Vec<u8>,
    pub cert_pem: String,
    pub key_der: Vec<u8>,
    pub key_pem: String,
}

/// The subject Common Name field that a DER-encoded X.509 certificate
/// carries.
pub uninterp spec fn subject_cn_of(cert_der: Seq<u8>) -> Seq<char>;

/// The PEM text `rcgen::Certificate::pem` produces for a certificate with
/// the given DER bytes: one `CERTIFICATE` block holding exactly those bytes.
pub uninterp spec fn certificate_pem_of(der: Seq<u8>) -> Seq<char>;

/// The PEM text `rcgen::KeyPair::serialize_pem` produces for a key whose
/// PKCS#8 DER is the given bytes: one `PRIVATE KEY` block holding exactly
/// those bytes.
pub uninterp spec fn private_key_pem_of(der: Seq<u8>) -> Seq<char>;

/// Relies on rcgen: `KeyPair::generate` draws a fresh ECDSA P-256 key, and
/// `CertificateParams::self_signed` signs a certificate over the parameters
/// with it, embedding that key's public half, so the DER's subject Common
/// Name is exactly the one entry pushed into the distinguished name and the
/// pair is accepted by rustls's ring provider (the key parses and its
/// public half equals the certificate's). `Certificate::der` and
/// `Certificate::pem` hand out the one DER produced at signing and its PEM
/// encoding; `KeyPair::serialize_der` and `KeyPair::serialize_pem` likewise
/// for the key, so each PEM text encodes exactly the matching DER bytes.
#[verifier::external_body]
fn generate_self_signed(common_name: &str) -> (r: Result<GeneratedIdentity, String>)
    ensures
        (r matches Ok(g) ==> g.cert_pem@ == certificate_pem_of(g.cert_der@)
            && g.key_pem@ == private_key_pem_of(g.key_der@)),
        (r matches Ok(g) ==> subject_cn_of(g.cert_der@) == common_name@),
        (r matches Ok(g) ==> config_accepts(g.cert_der@, g.key_der@)),
{
    let mut params = rcgen::CertificateParams::default();
    params.distinguished_name = rcgen::DistinguishedName::new();
    params.distinguished_name.push(rcgen::DnType::CommonName, common_name);
    let key_pair = rcgen::KeyPair::generate().map_err(|e| format!("{e}"))?;
    let cert = params.self_signed(&key_pair).map_err(|e| format!("{e}"))?;
    Ok(GeneratedIdentity {
        cert_der: cert.der().to_vec(),
        cert_pem: cert.pem(),
        key_der: key_pair.serialize_der(),
        key_pem: key_pair.serialize_pem(),
    })
}

/// Generate a fresh self-signed credential whose subject Common Name is
/// exactly `common_name`, with default validity window and key algorithm.
/// The PEM text of the result encodes exactly the DER handed back for
/// immediate use, so what the caller persists is what the acceptor is
/// built from; and the pair is one the TLS layer accepts.
pub fn generate_identity(common_name: &str) -> (r: Result<GeneratedIdentity, CertError>)
    ensures
        (r matches Ok(g) ==> g.cert_pem@ == certificate_pem_of(g.cert_der@)
            && g.key_pem@ == private_key_pem_of(g.key_der@)),
        (r matches Ok(g) ==> subject_cn_of(g.cert_der@) == common_name@),
        (r matches Ok(g) ==> config_accepts(g.cert_der@, g.key_der@)),
        (r matches Err(e) ==> e matches CertError::Generation(_)),
{
    match generate_self_signed(common_name) {
        Ok(g) => Ok(g),
        Err(m) => Err(CertError::Generation(m)),
    }
}

} // verus!
