//! The errors that building an endpoint can report.

use vstd::prelude::*;
use http::uri::InvalidUriBytes;
use openssl::error::ErrorStack;

verus! {

#[verifier::external_type_specification]
#[verifier::external_body]
pub struct ExInvalidUriBytes(InvalidUriBytes);

#[verifier::external_type_specification]
#[verifier::external_body]
pub struct ExErrorStack(ErrorStack);

/// The side of a connection on which an error arose.
#[derive(Clone, Copy, Debug, PartialEq, Eq, Structural)]
pub enum ErrorKind {
    /// The error arose while the client side was being set up or used.
    Client,
    /// The error arose on the serving side.
    Server,
}

/// An underlying error together with the side on which it arose.
#[derive(Debug)]
pub struct Error<E> {
    pub kind: ErrorKind,
    pub source: E,
}

impl<E> Error<E> {
    /// Tags `source` with `kind`.
    pub fn from_source(kind: ErrorKind, source: E) -> (e: Self)
        ensures
            e.kind == kind,
            e.source == source,
    {
        Error { kind, source }
    }
}

/// An address was refused as the target of an endpoint: it is not a URI.
#[derive(Debug)]
pub struct UriParseError {
    /// The parser's own error, which says why.
    pub cause: InvalidUriBytes,
}

/// Why TLS settings could not be resolved into a connector.
#[derive(Debug)]
pub enum TlsError {
    /// No certificate could be read from PEM text that should hold one.
    CertificateParse,
    /// The PEM text of an identity holds no private key, or one of which no signing key can
    /// be made.
    PrivateKeyParse,
    /// OpenSSL refused a step of building the connector.
    OpenSsl(ErrorStack),
}

} // verus!
