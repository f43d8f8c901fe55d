//! Reading credentials out of PEM file contents.
//!
//! Only the first PEM block that the decoder recognises is inspected:
//! `rustls_pemfile` silently skips blocks whose tag it does not know, so
//! "first block" below always means the first recognised one. A
//! certificate file whose first block is not an X.509 certificate counts
//! as not yet provisioned; a key file whose first block is not a PKCS#8
//! private key is a recoverable format error, so that the caller never
//! silently runs with a mismatched or corrupt key.

use vstd::prelude::*;

use crate::error::CertError;

verus! {

/// What the first recognised PEM block of a byte string holds.
#[derive(Debug, Clone, PartialEq, Eq)]
pub enum PemScan {
    /// The first recognised block is an X.509 certificate; the payload is
    /// its DER bytes.
    Certificate(Vec<u8>),
    /// The first recognised block is a PKCS#8 private key; the payload is
    /// its DER bytes.
    Pkcs8Key(Vec<u8>),
    /// The first recognised block carries one of the decoder's other tags
    /// (a public key, a PKCS#1 or SEC1 private key, a CRL, or a
    /// certificate request).
    OtherTag,
    /// No recognised PEM block is present (blocks with unknown tags are
    /// skipped, not reported).
    NoBlock,
    /// A block starts but is not well-formed PEM (broken framing or
    /// base64).
    Malformed,
}

/// What `rustls_pemfile::read_one_from_slice` finds as the first PEM block
/// it recognises in a byte string; the result is a function of the bytes
/// alone.
pub uninterp spec fn pem_scan(s: Seq<u8>) -> PemScan;

/// Relies on `rustls_pemfile::read_one_from_slice`: it decodes the first
/// PEM block whose tag it recognises, skipping unknown tags, and reports
/// that block's tag and DER payload, the absence of any recognised block,
/// or ill-formed PEM text.
#[verifier::external_body]
fn scan_first_pem_block(bytes: &[u8]) -> (r: PemScan)
    ensures
        r == pem_scan(bytes@),
{
    match rustls_pemfile::read_one_from_slice(bytes) {
        Err(_) => PemScan::Malformed,
        Ok(None) => PemScan::NoBlock,
        Ok(Some((rustls_pemfile::Item::X509Certificate(der), _))) => {
            PemScan::Certificate(der.to_vec())
        },
        Ok(Some((rustls_pemfile::Item::Pkcs8Key(key), _))) => {
            PemScan::Pkcs8Key(key.secret_pkcs8_der().to_vec())
        },
        Ok(Some(_)) => PemScan::OtherTag,
    }
}

/// The certificate a credential file holds: the DER payload of its first
/// recognised PEM block, when that block is an X.509 certificate; an absent or
/// unreadable file, or any other first block, counts as not provisioned.
pub open spec fn spec_load_certificate(file: Option<Vec<u8>>) -> Option<Vec<u8>> {
    match file {
        Option::None => Option::None,
        Option::Some(b) => match pem_scan(b@) {
            PemScan::Certificate(d) => Option::Some(d),
            _ => Option::None,
        },
    }
}

/// Whether the key file must be rejected: it is readable, but its first
/// recognised PEM block is missing or is not a PKCS#8 private key.
pub open spec fn spec_key_file_rejected(file: Option<Vec<u8>>) -> bool {
    match file {
        Option::None => false,
        Option::Some(b) => match pem_scan(b@) {
            PemScan::Pkcs8Key(_) => false,
            PemScan::Malformed => false,
            _ => true,
        },
    }
}

/// The private key a credential file holds: the DER payload of its first
/// recognised PEM block, when that block is a PKCS#8 private key.
pub open spec fn spec_load_private_key(file: Option<Vec<u8>>) -> Option<Vec<u8>> {
    match file {
        Option::None => Option::None,
        Option::Some(b) => match pem_scan(b@) {
            PemScan::Pkcs8Key(d) => Option::Some(d),
            _ => Option::None,
        },
    }
}

/// Extract the certificate from the contents of the certificate file,
/// given as `None` when the file was absent or unreadable.
pub fn load_certificate(file: Option<Vec<u8>>) -> (r: Option<Vec<u8>>)
    ensures
        r == spec_load_certificate(file),
{
    match file {
        None => None,
        Some(b) => match scan_first_pem_block(b.as_slice()) {
            PemScan::Certificate(d) => Some(d),
            _ => None,
        },
    }
}

/// Extract the private key from the contents of the key file, given as
/// `None` when the file was absent or unreadable. A readable file whose
/// first recognised PEM block is not a PKCS#8 private key is reported as a format
/// error rather than regenerated over.
pub fn load_private_key(file: Option<Vec<u8>>) -> (r: Result<Option<Vec<u8>>, CertError>)
    ensures
        spec_key_file_rejected(file) <==> r == Err::<Option<Vec<u8>>, CertError>(
            CertError::CredentialFormat,
        ),
        !spec_key_file_rejected(file) ==> r == Ok::<Option<Vec<u8>>, CertError>(
            spec_load_private_key(file),
        ),
{
    match file {
        None => Ok(None),
        Some(b) => match scan_first_pem_block(b.as_slice()) {
            PemScan::Pkcs8Key(d) => Ok(Some(d)),
            PemScan::Malformed => Ok(None),
            _ => Err(CertError::CredentialFormat),
        },
    }
}

} // verus!
