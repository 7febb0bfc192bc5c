//! A TLS connector: a backend object that is ready for handshakes, and the domain that the
//! peer's certificate is checked against.

use vstd::prelude::*;
use std::sync::Arc;
use openssl::ssl::SslConnector;
use tokio_rustls::rustls::ClientConfig;
use crate::error::TlsError;
use crate::openssl_backend::add_root_certificate;
use crate::openssl_backend::build_connector;
use crate::openssl_backend::certificate_from_pem;
use crate::openssl_backend::connector_builder;
use crate::openssl_backend::pem_fits;
use crate::openssl_backend::private_key_from_pem;
use crate::openssl_backend::set_alpn_protocols;
use crate::openssl_backend::set_certificate;
use crate::openssl_backend::set_private_key;
use crate::rustls_backend::add_root_certificates;
use crate::rustls_backend::key_is_supported;
use crate::rustls_backend::new_config;
use crate::rustls_backend::config_protocols;
use crate::rustls_backend::config_root_subjects;
use crate::rustls_backend::pem_certificates;
use crate::rustls_backend::pem_pkcs8_keys;
use crate::rustls_backend::pem_root_subjects;
use crate::rustls_backend::pem_rsa_keys;
use crate::rustls_backend::read_certificates;
use crate::rustls_backend::read_pkcs8_keys;
use crate::rustls_backend::read_rsa_keys;
use crate::rustls_backend::set_protocol;
use crate::shared::share;
use crate::tls::Certificate;
use crate::tls::Identity;
use crate::tls::TlsProvider;

verus! {

/// The backend object inside a connector.
pub enum Backend {
    OpenSsl(SslConnector),
    Rustls(Arc<ClientConfig>),
}

/// What a connector was built from.
#[derive(Clone, Copy, Debug, PartialEq, Eq, Structural)]
pub enum ConnectorOrigin {
    /// From a CA certificate and a client identity, each of which may have been absent.
    Material,
    /// From a backend object that the caller supplied.
    RawOverride,
}

/// A client identity as rustls takes it: the certificate chain and the private key, each in
/// DER.
#[derive(Debug)]
pub struct ClientIdentity {
    pub chain: Vec<Vec<u8>>,
    pub key: Vec<u8>,
}

/// A resolved TLS connector.
///
/// An OpenSSL connector holds all that it was built from. A rustls configuration takes a
/// client identity only through a call that reads the key once more and panics where it
/// cannot make a signing key of it, so a connector of rustls holds the identity beside the
/// configuration, read and tried, for the transport to put in.
pub struct TlsConnector {
    backend: Backend,
    client_identity: Option<Arc<ClientIdentity>>,
    domain: String,
    origin: ConnectorOrigin,
}

/// What a connector is, to a contract.
pub struct TlsConnectorView {
    pub backend: Backend,
    /// The client identity that is yet to be put into a rustls configuration.
    pub client_identity: Option<Arc<ClientIdentity>>,
    pub domain: Seq<char>,
    pub origin: ConnectorOrigin,
}

impl TlsConnectorView {
    /// A connector for `domain` around a backend object that the caller supplied.
    pub open spec fn raw(backend: Backend, domain: Seq<char>) -> Self {
        TlsConnectorView {
            backend,
            client_identity: None,
            domain,
            origin: ConnectorOrigin::RawOverride,
        }
    }

    /// Whether the client identity beside the backend object is what rustls reads from
    /// `identity`: none where there is no identity, and else its chain and its first key.
    pub open spec fn holds_identity(self, identity: Option<Identity>) -> bool {
        match identity {
            None => self.client_identity is None,
            Some(i) => self.client_identity matches Some(held) && held.is_read_from(i),
        }
    }
}

impl ClientIdentity {
    /// Whether this is what rustls reads from the PEM texts of `identity`: all certificates
    /// of the one, and the first private key of the other.
    pub open spec fn is_read_from(self, identity: Identity) -> bool {
        pem_certificates(identity.cert.pem@) == Some(self.chain.deep_view())
            && first_private_key(identity.key@) == Some(self.key@)
    }
}

impl Backend {
    /// The provider that made this backend object.
    pub open spec fn spec_provider(self) -> TlsProvider {
        match self {
            Backend::OpenSsl(_) => TlsProvider::OpenSsl,
            Backend::Rustls(_) => TlsProvider::Rustls,
        }
    }

    /// Whether this is a rustls configuration that offers HTTP/2 and no other protocol, and
    /// trusts the roots with the subjects `roots` and no others.
    pub open spec fn is_rustls_offering_h2(self, roots: Seq<Seq<u8>>) -> bool {
        self matches Backend::Rustls(config) && config_protocols(*config) == seq![h2()]
            && config_root_subjects(*config) == roots
    }
}

impl Clone for Backend {
    /// Another handle on the same backend object: nothing is copied.
    fn clone(&self) -> (r: Self)
        ensures
            r == *self,
    {
        match self {
            Backend::OpenSsl(connector) => Backend::OpenSsl(connector.clone()),
            Backend::Rustls(config) => Backend::Rustls(share(config)),
        }
    }
}

impl Clone for TlsConnector {
    /// A connector that shares the backend object of this one.
    fn clone(&self) -> (r: Self)
        ensures
            r@ == self@,
    {
        TlsConnector {
            backend: self.backend.clone(),
            client_identity: match &self.client_identity {
                Some(identity) => Some(share(identity)),
                None => None,
            },
            domain: self.domain.clone(),
            origin: self.origin,
        }
    }
}

impl View for TlsConnector {
    type V = TlsConnectorView;

    closed spec fn view(&self) -> TlsConnectorView {
        TlsConnectorView {
            backend: self.backend,
            client_identity: self.client_identity,
            domain: self.domain@,
            origin: self.origin,
        }
    }
}

/// The outcome of building a connector, with the connector replaced by its view.
pub open spec fn outcome_view(r: Result<TlsConnector, TlsError>) -> Result<
    TlsConnectorView,
    TlsError,
> {
    match r {
        Ok(c) => Ok(c@),
        Err(e) => Err(e),
    }
}

/// The private key that an identity's key text yields for rustls: the first PKCS#8 key, or
/// where the text holds none, the first RSA key.
pub open spec fn first_private_key(pem: Seq<u8>) -> Option<Seq<u8>> {
    match first_key(pem_pkcs8_keys(pem)) {
        Some(key) => Some(key),
        None => first_key(pem_rsa_keys(pem)),
    }
}

/// The first of the keys that were read, if any was.
pub open spec fn first_key(keys: Option<Seq<Seq<u8>>>) -> Option<Seq<u8>> {
    match keys {
        Some(keys) => if keys.len() > 0 {
            Some(keys[0])
        } else {
            None
        },
        None => None,
    }
}

/// Why rustls cannot read `identity`, if it cannot: no certificates can be read from the one
/// text, or no private key from the other.
pub open spec fn rustls_identity_error(identity: Identity) -> Option<TlsError> {
    if pem_certificates(identity.cert.pem@) is None {
        Some(TlsError::CertificateParse)
    } else if first_private_key(identity.key@) is None {
        Some(TlsError::PrivateKeyParse)
    } else {
        None
    }
}

/// Why rustls cannot read the CA certificate, if it cannot.
pub open spec fn rustls_ca_error(ca: Option<Certificate>) -> Option<TlsError> {
    if ca matches Some(c) && pem_certificates(c.pem@) is None {
        Some(TlsError::CertificateParse)
    } else {
        None
    }
}

/// What loading `identity` for rustls yields.
///
/// Where the identity cannot be read, the error that `rustls_identity_error` names. Where it
/// can, rustls is asked whether it can make a signing key of the private key, and its answer
/// is not a matter of the bytes alone: either it can, and the result is the identity as
/// read, or it cannot, and the result is `PrivateKeyParse`.
pub open spec fn loaded_identity(identity: Identity, r: Result<ClientIdentity, TlsError>) -> bool {
    match rustls_identity_error(identity) {
        Some(e) => r == Err::<ClientIdentity, TlsError>(e),
        None => match r {
            Ok(read) => read.is_read_from(identity),
            Err(e) => e == TlsError::PrivateKeyParse,
        },
    }
}

/// The error for material that is too long for OpenSSL to read, if any is.
pub open spec fn openssl_size_error(
    ca: Option<Certificate>,
    identity: Option<Identity>,
) -> Option<TlsError> {
    if ca matches Some(c) && !pem_fits(c.pem@) {
        Some(TlsError::CertificateParse)
    } else if identity matches Some(i) && !pem_fits(i.cert.pem@) {
        Some(TlsError::CertificateParse)
    } else if identity matches Some(i) && !pem_fits(i.key@) {
        Some(TlsError::PrivateKeyParse)
    } else {
        None
    }
}

/// The ALPN name of HTTP/2: the bytes of `h2`.
pub open spec fn h2() -> Seq<u8> {
    seq![0x68u8, 0x32u8]
}

/// The subjects of the roots that a rustls configuration built from `ca` trusts: those of
/// the trust anchors in the CA certificate, and none where there is no CA certificate.
pub open spec fn rustls_roots(ca: Option<Certificate>) -> Seq<Seq<u8>> {
    match ca {
        Some(c) => pem_root_subjects(c.pem@),
        None => Seq::empty(),
    }
}

/// The ALPN name of HTTP/2.
fn alpn_h2() -> (name: Vec<u8>)
    ensures
        name@ == h2(),
{
    let mut name: Vec<u8> = Vec::new();
    name.push(0x68u8);
    name.push(0x32u8);
    name
}

/// The ALPN name of HTTP/2 in wire format: its length, then the name.
fn alpn_h2_wire() -> (wire: Vec<u8>)
    ensures
        wire@ == seq![2u8, 0x68u8, 0x32u8],
{
    let mut wire: Vec<u8> = Vec::new();
    wire.push(2u8);
    wire.push(0x68u8);
    wire.push(0x32u8);
    wire
}

/// The first key in the PEM text of an identity's private key, as rustls reads it.
pub fn load_private_key(pem: &[u8]) -> (r: Result<Vec<u8>, TlsError>)
    ensures
        match first_private_key(pem@) {
            Some(key) => r matches Ok(k) && k@ == key,
            None => r == Err::<Vec<u8>, TlsError>(TlsError::PrivateKeyParse),
        },
{
    if let Some(mut keys) = read_pkcs8_keys(pem) {
        if keys.len() > 0 {
            let key = keys.remove(0);
            return Ok(key);
        }
    }
    if let Some(mut keys) = read_rsa_keys(pem) {
        if keys.len() > 0 {
            let key = keys.remove(0);
            return Ok(key);
        }
    }
    Err(TlsError::PrivateKeyParse)
}

/// The chain and the key as an identity, where rustls has said that it can make a signing
/// key of the key, and the error of a key that cannot be used where it has said that it
/// cannot.
pub fn identity_if_usable(chain: Vec<Vec<u8>>, key: Vec<u8>, usable: bool) -> (r: Result<
    ClientIdentity,
    TlsError,
>)
    ensures
        usable ==> (r matches Ok(identity) && identity.chain == chain && identity.key == key),
        !usable ==> r == Err::<ClientIdentity, TlsError>(TlsError::PrivateKeyParse),
{
    if usable {
        Ok(ClientIdentity { chain, key })
    } else {
        Err(TlsError::PrivateKeyParse)
    }
}

/// The certificate chain and the private key of `identity`, both in DER, as rustls reads
/// them from its PEM texts, once rustls has found that it can sign with the key.
pub fn load_identity(identity: &Identity) -> (r: Result<ClientIdentity, TlsError>)
    ensures
        loaded_identity(*identity, r),
{
    let chain = match read_certificates(identity.cert.pem.as_slice()) {
        Some(chain) => chain,
        None => {
            return Err(TlsError::CertificateParse);
        },
    };
    let key = match load_private_key(identity.key.as_slice()) {
        Ok(key) => key,
        Err(e) => {
            return Err(e);
        },
    };
    let usable = key_is_supported(key.as_slice());
    identity_if_usable(chain, key, usable)
}

impl TlsConnector {
    /// The domain that the peer's certificate is checked against.
    pub fn domain(&self) -> (d: &str)
        ensures
            d@ == self@.domain,
    {
        self.domain.as_str()
    }

    /// The backend object.
    pub fn backend(&self) -> (b: &Backend)
        ensures
            *b == self@.backend,
    {
        &self.backend
    }

    /// The client identity that the transport has to put into the rustls configuration
    /// before a handshake; `None` where there is none, or where the backend object holds it.
    pub fn client_identity(&self) -> (identity: Option<&Arc<ClientIdentity>>)
        ensures
            match identity {
                Some(held) => self@.client_identity == Some(*held),
                None => self@.client_identity is None,
            },
    {
        self.client_identity.as_ref()
    }

    /// What this connector was built from.
    pub fn origin(&self) -> (o: ConnectorOrigin)
        ensures
            o == self@.origin,
    {
        self.origin
    }

    /// The provider that made the backend object.
    pub fn provider(&self) -> (p: TlsProvider)
        ensures
            p == self@.backend.spec_provider(),
    {
        match &self.backend {
            Backend::OpenSsl(_) => TlsProvider::OpenSsl,
            Backend::Rustls(_) => TlsProvider::Rustls,
        }
    }

    /// A connector around an OpenSSL connector that the caller has set up. This cannot fail.
    pub fn new_with_openssl_raw(connector: SslConnector, domain: String) -> (r: Result<
        Self,
        TlsError,
    >)
        ensures
            outcome_view(r) == Ok::<TlsConnectorView, TlsError>(
                TlsConnectorView::raw(Backend::OpenSsl(connector), domain@),
            ),
    {
        Ok(
            TlsConnector {
                backend: Backend::OpenSsl(connector),
                client_identity: None,
                domain,
                origin: ConnectorOrigin::RawOverride,
            },
        )
    }

    /// A connector around a rustls configuration that the caller has set up. This cannot
    /// fail.
    pub fn new_with_rustls_raw(config: ClientConfig, domain: String) -> (r: Result<
        Self,
        TlsError,
    >)
        ensures
            outcome_view(r) == Ok::<TlsConnectorView, TlsError>(
                TlsConnectorView::raw(Backend::Rustls(Arc::new(config)), domain@),
            ),
    {
        Ok(
            TlsConnector {
                backend: Backend::Rustls(Arc::new(config)),
                client_identity: None,
                domain,
                origin: ConnectorOrigin::RawOverride,
            },
        )
    }

    /// What is known of the outcome of building an OpenSSL connector from material.
    ///
    /// Material that is too long to be read is refused with the error that
    /// `openssl_size_error` names. Otherwise OpenSSL decides: either it refuses a step, or the
    /// connector is one of OpenSSL for `domain`, built from material.
    pub open spec fn openssl_cert_outcome(
        ca: Option<Certificate>,
        identity: Option<Identity>,
        domain: Seq<char>,
        r: Result<TlsConnectorView, TlsError>,
    ) -> bool {
        match openssl_size_error(ca, identity) {
            Some(e) => r == Err::<TlsConnectorView, TlsError>(e),
            None => match r {
                Ok(c) => c.backend is OpenSsl && c.client_identity is None && c.domain == domain
                    && c.origin == ConnectorOrigin::Material,
                Err(e) => e is OpenSsl,
            },
        }
    }

    /// What building a rustls connector from material yields.
    ///
    /// The identity is read first. Where it cannot be read, the result is the error that
    /// `rustls_identity_error` names. Where rustls then finds that it cannot sign with the
    /// key, which is not a matter of the bytes alone, the result is `PrivateKeyParse`. Else
    /// the CA certificate is read: where it cannot be, the result is the error that
    /// `rustls_ca_error` names, and where it can, a connector of rustls for `domain`, built
    /// from material: its configuration offers HTTP/2 and nothing else and trusts the roots
    /// of the CA certificate and no others, and the identity as read stands beside it.
    pub open spec fn rustls_cert_outcome(
        ca: Option<Certificate>,
        identity: Option<Identity>,
        domain: Seq<char>,
        r: Result<TlsConnectorView, TlsError>,
    ) -> bool {
        if identity matches Some(i) && rustls_identity_error(i) is Some {
            r == Err::<TlsConnectorView, TlsError>(rustls_identity_error(identity.unwrap()).unwrap())
        } else if identity is Some && r == Err::<TlsConnectorView, TlsError>(
            TlsError::PrivateKeyParse,
        ) {
            true
        } else {
            match rustls_ca_error(ca) {
                Some(e) => r == Err::<TlsConnectorView, TlsError>(e),
                None => r matches Ok(c) && c.backend.is_rustls_offering_h2(rustls_roots(ca))
                    && c.holds_identity(identity) && c.domain == domain && c.origin
                    == ConnectorOrigin::Material,
            }
        }
    }

    /// Builds an OpenSSL connector that offers HTTP/2, trusts `ca` besides the system's
    /// roots where one is given, and presents `identity` where one is given. The private
    /// key is read with an empty passphrase, so that OpenSSL never asks a terminal for one:
    /// a key that is encrypted is refused.
    pub fn new_with_openssl_cert(
        ca: &Option<Certificate>,
        identity: &Option<Identity>,
        domain: String,
    ) -> (r: Result<Self, TlsError>)
        ensures
            Self::openssl_cert_outcome(*ca, *identity, domain@, outcome_view(r)),
    {
        if let Some(c) = ca {
            if c.pem.len() > i32::MAX as usize {
                return Err(TlsError::CertificateParse);
            }
        }
        if let Some(i) = identity {
            if i.cert.pem.len() > i32::MAX as usize {
                return Err(TlsError::CertificateParse);
            }
            if i.key.len() > i32::MAX as usize {
                return Err(TlsError::PrivateKeyParse);
            }
        }
        let mut builder = match connector_builder() {
            Ok(builder) => builder,
            Err(e) => {
                return Err(TlsError::OpenSsl(e));
            },
        };
        let wire = alpn_h2_wire();
        if let Err(e) = set_alpn_protocols(&mut builder, wire.as_slice()) {
            return Err(TlsError::OpenSsl(e));
        }
        if let Some(c) = ca {
            let root = match certificate_from_pem(c.pem.as_slice()) {
                Ok(root) => root,
                Err(e) => {
                    return Err(TlsError::OpenSsl(e));
                },
            };
            if let Err(e) = add_root_certificate(&mut builder, root) {
                return Err(TlsError::OpenSsl(e));
            }
        }
        if let Some(i) = identity {
            let no_passphrase: Vec<u8> = Vec::new();
            let key = match private_key_from_pem(i.key.as_slice(), no_passphrase.as_slice()) {
                Ok(key) => key,
                Err(e) => {
                    return Err(TlsError::OpenSsl(e));
                },
            };
            let leaf = match certificate_from_pem(i.cert.pem.as_slice()) {
                Ok(leaf) => leaf,
                Err(e) => {
                    return Err(TlsError::OpenSsl(e));
                },
            };
            if let Err(e) = set_certificate(&mut builder, &leaf) {
                return Err(TlsError::OpenSsl(e));
            }
            if let Err(e) = set_private_key(&mut builder, &key) {
                return Err(TlsError::OpenSsl(e));
            }
        }
        Ok(
            TlsConnector {
                backend: Backend::OpenSsl(build_connector(builder)),
                client_identity: None,
                domain,
                origin: ConnectorOrigin::Material,
            },
        )
    }

    /// Builds a rustls configuration that offers HTTP/2 and trusts the certificates of `ca`
    /// where one is given, and reads `identity`, where one is given, for the transport to
    /// put into the configuration.
    pub fn new_with_rustls_cert(
        ca: &Option<Certificate>,
        identity: &Option<Identity>,
        domain: String,
    ) -> (r: Result<Self, TlsError>)
        ensures
            Self::rustls_cert_outcome(*ca, *identity, domain@, outcome_view(r)),
    {
        let client_identity = match identity {
            Some(i) => match load_identity(i) {
                Ok(read) => Some(Arc::new(read)),
                Err(e) => {
                    return Err(e);
                },
            },
            None => None,
        };
        let mut config = new_config();
        set_protocol(&mut config, alpn_h2());
        if let Some(c) = ca {
            if add_root_certificates(&mut config, c.pem.as_slice()).is_err() {
                return Err(TlsError::CertificateParse);
            }
        }
        Ok(
            TlsConnector {
                backend: Backend::Rustls(Arc::new(config)),
                client_identity,
                domain,
                origin: ConnectorOrigin::Material,
            },
        )
    }
}

} // verus!
