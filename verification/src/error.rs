use vstd::prelude::*;

verus! {

/// The ways provisioning a TLS identity can fail.
#[derive(Debug, Clone, PartialEq, Eq)]
pub enum CertError {
    /// The key file's first recognised PEM block is not a PKCS#8 private
    /// key, or it holds no recognised block at all: a recoverable report
    /// of a mismatched or corrupt key file.
    CredentialFormat,
    /// Synthesis of a fresh self-signed certificate or key failed.
    Generation(String),
    /// Durably storing a freshly generated credential failed.
    Persist(String),
    /// The TLS configuration rejected the certificate/key pair.
    ConfigBuild(String),
}

} // verus!
