//! The calls into rustls that build a client configuration.

use vstd::prelude::*;
use tokio_rustls::rustls::ClientConfig;
use tokio_rustls::rustls::PrivateKey;
use tokio_rustls::rustls::internal::pemfile;
use tokio_rustls::rustls::sign::any_supported_type;

verus! {

#[verifier::external_type_specification]
#[verifier::external_body]
pub struct ExClientConfig(ClientConfig);

/// The certificates, in DER, that `pemfile::certs` reads from `pem`; `None` where it fails.
pub uninterp spec fn pem_certificates(pem: Seq<u8>) -> Option<Seq<Seq<u8>>>;

/// The keys, in DER, that `pemfile::pkcs8_private_keys` reads from `pem`; `None` where it
/// fails.
pub uninterp spec fn pem_pkcs8_keys(pem: Seq<u8>) -> Option<Seq<Seq<u8>>>;

/// The keys, in DER, that `pemfile::rsa_private_keys` reads from `pem`; `None` where it
/// fails.
pub uninterp spec fn pem_rsa_keys(pem: Seq<u8>) -> Option<Seq<Seq<u8>>>;

/// The ALPN protocols that `config` offers, the most preferred first: what its
/// `alpn_protocols` holds.
pub uninterp spec fn config_protocols(config: ClientConfig) -> Seq<Seq<u8>>;

/// The subjects of the root certificates that `config` trusts, in the order in which they
/// were added: one for each trust anchor that its `root_store` holds.
pub uninterp spec fn config_root_subjects(config: ClientConfig) -> Seq<Seq<u8>>;

/// The subjects of the trust anchors that `RootCertStore::add_pem_file` adds for `pem`: one
/// for each certificate in it that can serve as a trust anchor, in their order.
pub uninterp spec fn pem_root_subjects(pem: Seq<u8>) -> Seq<Seq<u8>>;

/// `ClientConfig::clone` hands back an equal configuration.
pub assume_specification[ <ClientConfig as Clone>::clone ](config: &ClientConfig) -> (r:
    ClientConfig)
    ensures
        r == *config,
;

/// Calls `pemfile::certs` on `pem` and hands out the DER bytes of each certificate.
#[verifier::external_body]
pub(crate) fn read_certificates(pem: &[u8]) -> (r: Option<Vec<Vec<u8>>>)
    ensures
        r is Some <==> pem_certificates(pem@) is Some,
        r matches Some(ders) ==> pem_certificates(pem@) == Some(ders.deep_view()),
{
    let mut reader = pem;
    pemfile::certs(&mut reader).ok().map(|ders| ders.into_iter().map(|der| der.0).collect())
}

/// Calls `pemfile::pkcs8_private_keys` on `pem` and hands out the DER bytes of each key.
#[verifier::external_body]
pub(crate) fn read_pkcs8_keys(pem: &[u8]) -> (r: Option<Vec<Vec<u8>>>)
    ensures
        r is Some <==> pem_pkcs8_keys(pem@) is Some,
        r matches Some(ders) ==> pem_pkcs8_keys(pem@) == Some(ders.deep_view()),
{
    let mut reader = pem;
    pemfile::pkcs8_private_keys(&mut reader).ok().map(
        |ders| ders.into_iter().map(|der| der.0).collect(),
    )
}

/// Calls `pemfile::rsa_private_keys` on `pem` and hands out the DER bytes of each key.
#[verifier::external_body]
pub(crate) fn read_rsa_keys(pem: &[u8]) -> (r: Option<Vec<Vec<u8>>>)
    ensures
        r is Some <==> pem_rsa_keys(pem@) is Some,
        r matches Some(ders) ==> pem_rsa_keys(pem@) == Some(ders.deep_view()),
{
    let mut reader = pem;
    pemfile::rsa_private_keys(&mut reader).ok().map(
        |ders| ders.into_iter().map(|der| der.0).collect(),
    )
}

/// Calls `sign::any_supported_type` on a copy of `der` and says whether it made a key.
///
/// Nothing is claimed of the answer: for an ECDSA key the call draws on the system's random
/// source, so the same bytes need not fare alike twice.
#[verifier::external_body]
pub(crate) fn key_is_supported(der: &[u8]) -> bool {
    any_supported_type(&PrivateKey(der.to_vec())).is_ok()
}

/// Calls `ClientConfig::new`.
///
/// Trusted: the new configuration offers no ALPN protocol and trusts no root certificate.
#[verifier::external_body]
pub(crate) fn new_config() -> (config: ClientConfig)
    ensures
        config_protocols(config) == Seq::<Seq<u8>>::empty(),
        config_root_subjects(config) == Seq::<Seq<u8>>::empty(),
{
    ClientConfig::new()
}

/// Calls `ClientConfig::set_protocols` with the one protocol given.
///
/// Trusted: the configuration then offers that protocol and no other, and trusts the roots
/// that it trusted.
#[verifier::external_body]
pub(crate) fn set_protocol(config: &mut ClientConfig, protocol: Vec<u8>)
    ensures
        config_protocols(*final(config)) == seq![protocol@],
        config_root_subjects(*final(config)) == config_root_subjects(*old(config)),
{
    config.set_protocols(&[protocol])
}

/// Calls `RootCertStore::add_pem_file` on the root store of `config`.
///
/// Trusted: it fails exactly where `pemfile::certs` fails on `pem`, and then changes
/// nothing. Otherwise it adds, behind the roots that the configuration trusted, a trust
/// anchor for each certificate of `pem` that can serve as one, and counts each certificate
/// read either as added or as refused. The ALPN protocols stay as they were.
#[verifier::external_body]
pub(crate) fn add_root_certificates(config: &mut ClientConfig, pem: &[u8]) -> (r: Result<
    (usize, usize),
    (),
>)
    ensures
        r is Ok <==> pem_certificates(pem@) is Some,
        r matches Ok(counts) ==> counts.0 == pem_root_subjects(pem@).len() && counts.0 + counts.1
            == pem_certificates(pem@).unwrap().len(),
        r is Ok ==> config_root_subjects(*final(config)) == config_root_subjects(*old(config))
            + pem_root_subjects(pem@),
        r is Err ==> config_root_subjects(*final(config)) == config_root_subjects(*old(config)),
        config_protocols(*final(config)) == config_protocols(*old(config)),
{
    let mut reader = pem;
    config.root_store.add_pem_file(&mut reader)
}

} // verus!
