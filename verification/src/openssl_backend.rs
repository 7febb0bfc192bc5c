//! The calls into OpenSSL that build a connector.

use vstd::prelude::*;
use openssl::error::ErrorStack;
use openssl::pkey::PKey;
use openssl::pkey::Private;
use openssl::ssl::SslConnector;
use openssl::ssl::SslConnectorBuilder;
use openssl::ssl::SslMethod;
use openssl::x509::X509;

verus! {

#[verifier::external_type_specification]
#[verifier::external_body]
pub struct ExSslConnector(SslConnector);

#[verifier::external_type_specification]
#[verifier::external_body]
pub struct ExSslConnectorBuilder(SslConnectorBuilder);

#[verifier::external_type_specification]
#[verifier::external_body]
pub struct ExX509(X509);

#[verifier::external_type_specification]
#[verifier::external_body]
pub struct ExPrivate(Private);

#[verifier::external_type_specification]
#[verifier::external_body]
#[verifier::reject_recursive_types(T)]
pub struct ExPKey<T>(PKey<T>);

/// The longest PEM text that OpenSSL reads from memory: it counts the bytes in a C `int`.
pub open spec fn pem_fits(pem: Seq<u8>) -> bool {
    pem.len() <= i32::MAX
}

/// `SslConnector::clone` hands back a connector that shares the context of the first, and
/// so is equal to it.
pub assume_specification[ <SslConnector as Clone>::clone ](connector: &SslConnector) -> (r:
    SslConnector)
    ensures
        r == *connector,
;

/// Calls `SslConnector::builder` for all versions of TLS. Nothing is claimed of the outcome,
/// which depends on the OpenSSL that is installed.
#[verifier::external_body]
pub(crate) fn connector_builder() -> Result<SslConnectorBuilder, ErrorStack> {
    SslConnector::builder(SslMethod::tls())
}

/// Calls `SslContextBuilder::set_alpn_protos`, which panics on a list that is longer than a C
/// `unsigned int` can count.
#[verifier::external_body]
pub(crate) fn set_alpn_protocols(builder: &mut SslConnectorBuilder, wire: &[u8]) -> Result<
    (),
    ErrorStack,
>
    requires
        wire@.len() <= u32::MAX,
{
    builder.set_alpn_protos(wire)
}

/// Calls `X509::from_pem`, which panics on text too long for OpenSSL to read from memory.
/// Nothing is claimed of the outcome, nor of how OpenSSL deals with a block that is marked
/// as encrypted.
#[verifier::external_body]
pub(crate) fn certificate_from_pem(pem: &[u8]) -> Result<X509, ErrorStack>
    requires
        pem_fits(pem@),
{
    X509::from_pem(pem)
}

/// Calls `PKey::private_key_from_pem_passphrase`, which panics on text too long for OpenSSL
/// to read from memory and on a passphrase that holds a zero byte.
#[verifier::external_body]
pub(crate) fn private_key_from_pem(pem: &[u8], passphrase: &[u8]) -> Result<
    PKey<Private>,
    ErrorStack,
>
    requires
        pem_fits(pem@),
        forall|i: int| 0 <= i < passphrase@.len() ==> passphrase@[i] != 0,
{
    PKey::private_key_from_pem_passphrase(pem, passphrase)
}

/// Calls `X509StoreBuilderRef::add_cert` on the certificate store of the builder.
#[verifier::external_body]
pub(crate) fn add_root_certificate(builder: &mut SslConnectorBuilder, root: X509) -> Result<
    (),
    ErrorStack,
> {
    builder.cert_store_mut().add_cert(root)
}

/// Calls `SslContextBuilder::set_certificate`.
#[verifier::external_body]
pub(crate) fn set_certificate(builder: &mut SslConnectorBuilder, leaf: &X509) -> Result<
    (),
    ErrorStack,
> {
    builder.set_certificate(leaf)
}

/// Calls `SslContextBuilder::set_private_key`.
#[verifier::external_body]
pub(crate) fn set_private_key(builder: &mut SslConnectorBuilder, key: &PKey<Private>) -> Result<
    (),
    ErrorStack,
> {
    builder.set_private_key(key)
}

/// Calls `SslConnectorBuilder::build`.
#[verifier::external_body]
pub(crate) fn build_connector(builder: SslConnectorBuilder) -> SslConnector {
    builder.build()
}

} // verus!
