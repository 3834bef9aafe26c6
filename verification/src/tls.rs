//! TLS server material: the certificate chain and the private key read
//! from PEM text.
use vstd::prelude::*;

verus! {

/// The DER certificates in PEM text, in order, as `rustls_pemfile::certs`
/// yields them; `None` when a PEM section is malformed.
pub uninterp spec fn pem_certificates(pem: Seq<u8>) -> Option<Seq<Seq<u8>>>;

/// The DER PKCS#8 private keys in PEM text, in order, as
/// `rustls_pemfile::pkcs8_private_keys` yields them; `None` when a PEM
/// section is malformed.
pub uninterp spec fn pem_pkcs8_keys(pem: Seq<u8>) -> Option<Seq<Seq<u8>>>;

/// The bytes of each item of a parsed list.
pub open spec fn byte_lists(r: Option<Vec<Vec<u8>>>) -> Option<Seq<Seq<u8>>> {
    match r {
        Some(v) => Some(v@.map_values(|x: Vec<u8>| x@)),
        None => None,
    }
}

/// `rustls_pemfile::certs` over the PEM bytes, collected until the first
/// error, each certificate as its DER bytes. Claimed: the result is
/// [`pem_certificates`] of the bytes (parsing depends on them alone).
#[verifier::external_body]
fn read_pem_certificates(pem: &[u8]) -> (r: Option<Vec<Vec<u8>>>)
    ensures
        byte_lists(r) == pem_certificates(pem@),
{
    let mut reader: &[u8] = pem;
    rustls_pemfile::certs(&mut reader)
        .collect::<Result<Vec<_>, _>>()
        .ok()
        .map(|certs| certs.into_iter().map(|c| c.to_vec()).collect())
}

/// `rustls_pemfile::pkcs8_private_keys` over the PEM bytes, collected
/// until the first error, each key as its DER bytes. Claimed: the result
/// is [`pem_pkcs8_keys`] of the bytes.
#[verifier::external_body]
fn read_pem_pkcs8_keys(pem: &[u8]) -> (r: Option<Vec<Vec<u8>>>)
    ensures
        byte_lists(r) == pem_pkcs8_keys(pem@),
{
    let mut reader: &[u8] = pem;
    rustls_pemfile::pkcs8_private_keys(&mut reader)
        .collect::<Result<Vec<_>, _>>()
        .ok()
        .map(|keys| keys.into_iter().map(|k| k.secret_pkcs8_der().to_vec()).collect())
}

/// Why TLS material could not be loaded.
#[derive(Debug, Clone, Copy, PartialEq, Eq, Structural)]
pub enum TlsError {
    /// The certificate file holds a malformed PEM section.
    Certificates,
    /// The key file holds a malformed PEM section.
    PrivateKey,
    /// The key file holds no PKCS#8 private key.
    NoPrivateKey,
}

impl TlsError {
    pub open spec fn message(self) -> Seq<char> {
        match self {
            TlsError::Certificates => "Failed to load certificates"@,
            TlsError::PrivateKey => "Failed to load private key"@,
            TlsError::NoPrivateKey => "No private keys found in file"@,
        }
    }

    /// The error's message.
    pub fn to_string(&self) -> (r: String)
        ensures
            r@ == self.message(),
    {
        match self {
            TlsError::Certificates => String::from_str("Failed to load certificates"),
            TlsError::PrivateKey => String::from_str("Failed to load private key"),
            TlsError::NoPrivateKey => String::from_str("No private keys found in file"),
        }
    }
}

/// The certificate chain in the PEM text of a certificate file.
pub fn tls_certificates(cert_pem: &[u8]) -> (r: Result<Vec<Vec<u8>>, TlsError>)
    ensures
        match pem_certificates(cert_pem@) {
            None => r == Err::<Vec<Vec<u8>>, TlsError>(TlsError::Certificates),
            Some(certs) => r is Ok && byte_lists(Some(r->Ok_0)) == Some(certs),
        },
{
    match read_pem_certificates(cert_pem) {
        Some(certs) => Ok(certs),
        None => Err(TlsError::Certificates),
    }
}

/// The private key of a key file: the first PKCS#8 key in its PEM text.
pub fn tls_private_key(key_pem: &[u8]) -> (r: Result<Vec<u8>, TlsError>)
    ensures
        match pem_pkcs8_keys(key_pem@) {
            None => r == Err::<Vec<u8>, TlsError>(TlsError::PrivateKey),
            Some(keys) => if keys.len() == 0 {
                r == Err::<Vec<u8>, TlsError>(TlsError::NoPrivateKey)
            } else {
                r is Ok && r->Ok_0@ == keys[0]
            },
        },
{
    match read_pem_pkcs8_keys(key_pem) {
        None => Err(TlsError::PrivateKey),
        Some(mut keys) => {
            if keys.len() == 0 {
                Err(TlsError::NoPrivateKey)
            } else {
                let ghost all = keys@;
                let first = keys.remove(0);
                assert(first@ == all.map_values(|x: Vec<u8>| x@)[0]);
                Ok(first)
            }
        },
    }
}

} // verus!
