//! The TLS backends and the certificate material that a connector is built from.

use vstd::prelude::*;

verus! {

/// A TLS backend. A connector is built by exactly one of them.
#[derive(Clone, Copy, Debug, PartialEq, Eq, Structural)]
pub enum TlsProvider {
    OpenSsl,
    Rustls,
}

/// An X.509 certificate, or several, as PEM text.
#[derive(Clone, Debug)]
pub struct Certificate {
    pub pem: Vec<u8>,
}

/// What a client presents to a server: its certificate and the private key that belongs to
/// it, both as PEM text.
#[derive(Clone, Debug)]
pub struct Identity {
    pub cert: Certificate,
    pub key: Vec<u8>,
}

impl Certificate {
    /// A certificate from its PEM text. The text is not read here.
    pub fn from_pem(pem: Vec<u8>) -> (c: Self)
        ensures
            c.pem == pem,
    {
        Certificate { pem }
    }
}

impl Identity {
    /// An identity from the PEM text of its certificate and of its private key. Neither text
    /// is read here.
    pub fn from_pem(cert: Vec<u8>, key: Vec<u8>) -> (i: Self)
        ensures
            i.cert.pem == cert,
            i.key == key,
    {
        Identity { cert: Certificate { pem: cert }, key }
    }
}

} // verus!
