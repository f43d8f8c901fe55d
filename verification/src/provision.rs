//! The identity-acquisition policy: use both persisted credentials when
//! both load, otherwise generate a fresh self-signed pair for the caller
//! to persist; a rejected key file stops provisioning with a format error.

use vstd::prelude::*;

use crate::error::CertError;
use crate::acceptor::config_accepts;
use crate::identity::{
    certificate_pem_of, generate_identity, private_key_pem_of, subject_cn_of, Identity,
};
use crate::pem::{
    load_certificate, load_private_key, pem_scan, spec_key_file_rejected, spec_load_certificate,
    spec_load_private_key, PemScan,
};

verus! {

/// How the identity was resolved.
#[derive(Debug, Clone, PartialEq, Eq)]
pub enum Provisioned {
    /// Both files held valid material; it is used verbatim, and nothing
    /// needs to be written back.
    Loaded { identity: Identity },
    /// A fresh credential was generated; the two PEM texts must be
    /// persisted to the credential files, overwriting prior content,
    /// before the identity serves connections across restarts.
    Generated { identity: Identity, cert_pem: String, key_pem: String },
}

/// The identity that the load-only path resolves, when it resolves one:
/// the certificate file's first PEM block is an X.509 certificate, the key
/// file's a PKCS#8 private key, and the identity is exactly those two DER
/// payloads.
pub open spec fn spec_loaded_identity(
    cert_file: Option<Vec<u8>>,
    key_file: Option<Vec<u8>>,
) -> Option<Identity> {
    if spec_key_file_rejected(key_file) {
        Option::None
    } else {
        match spec_load_certificate(cert_file) {
            Option::None => Option::None,
            Option::Some(c) => match spec_load_private_key(key_file) {
                Option::None => Option::None,
                Option::Some(k) => Option::Some(Identity { cert_der: c, key_der: k }),
            },
        }
    }
}

/// Resolve the server identity from the contents of the two credential
/// files (each `None` when absent or unreadable). When both files hold
/// valid material it is used verbatim and never regenerated; when the key
/// file is rejected provisioning stops with a format error; otherwise a
/// fresh self-signed pair is produced whose subject Common Name is exactly
/// `common_name`, whose PEM text encodes exactly the DER bytes of the
/// resolved identity, and which the TLS layer accepts.
pub fn provision_identity(
    cert_file: Option<Vec<u8>>,
    key_file: Option<Vec<u8>>,
    common_name: &str,
) -> (r: Result<Provisioned, CertError>)
    ensures
        spec_key_file_rejected(key_file) <==> r == Err::<Provisioned, CertError>(
            CertError::CredentialFormat,
        ),
        (match spec_loaded_identity(cert_file, key_file) {
            Option::Some(id) => r == Ok::<Provisioned, CertError>(
                Provisioned::Loaded { identity: id },
            ),
            Option::None => true,
        }),
        !spec_key_file_rejected(key_file) && spec_loaded_identity(cert_file, key_file) is None
            ==> (match r {
            Ok(p) => {
                &&& p matches Provisioned::Generated { identity, cert_pem, key_pem }
                &&& cert_pem@ == certificate_pem_of(identity.cert_der@)
                &&& key_pem@ == private_key_pem_of(identity.key_der@)
                &&& subject_cn_of(identity.cert_der@) == common_name@
                &&& config_accepts(identity.cert_der@, identity.key_der@)
            },
            Err(e) => e matches CertError::Generation(_),
        }),
{
    let cert = load_certificate(cert_file);
    match load_private_key(key_file) {
        Err(e) => Err(e),
        Ok(key) => match (cert, key) {
            (Some(c), Some(k)) => Ok(
                Provisioned::Loaded { identity: Identity { cert_der: c, key_der: k } },
            ),
            _ => match generate_identity(common_name) {
                Ok(g) => Ok(
                    Provisioned::Generated {
                        identity: Identity { cert_der: g.cert_der, key_der: g.key_der },
                        cert_pem: g.cert_pem,
                        key_pem: g.key_pem,
                    },
                ),
                Err(e) => Err(e),
            },
        },
    }
}

/// Valid persisted credentials are taken verbatim: when the certificate
/// file's first PEM block is an X.509 certificate and the key file's a
/// PKCS#8 private key, the load-only path resolves exactly those two DER
/// payloads, so provisioning returns them unchanged and never regenerates.
pub proof fn lemma_valid_files_load_verbatim(
    cert_file: Vec<u8>,
    key_file: Vec<u8>,
    c: Vec<u8>,
    k: Vec<u8>,
)
    requires
        pem_scan(cert_file@) == PemScan::Certificate(c),
        pem_scan(key_file@) == PemScan::Pkcs8Key(k),
    ensures
        spec_loaded_identity(Option::Some(cert_file), Option::Some(key_file)) == Option::Some(
            Identity { cert_der: c, key_der: k },
        ),
{
}

/// The load-only path is idempotent: two provisioning runs over the same
/// already-populated files resolve byte-identical certificate and key
/// material.
pub proof fn lemma_load_path_idempotent(
    cert_file: Option<Vec<u8>>,
    key_file: Option<Vec<u8>>,
    id1: Identity,
    id2: Identity,
)
    requires
        spec_loaded_identity(cert_file, key_file) == Option::Some(id1),
        spec_loaded_identity(cert_file, key_file) == Option::Some(id2),
    ensures
        id1 == id2,
        id1.cert_der@ == id2.cert_der@,
        id1.key_der@ == id2.key_der@,
{
}

} // verus!
