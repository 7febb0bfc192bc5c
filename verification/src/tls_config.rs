//! TLS settings, and their resolution into a connector.

use vstd::prelude::*;
use std::sync::Arc;
use openssl::ssl::SslConnector;
use tokio_rustls::rustls::ClientConfig;
use crate::connector::Backend;
use crate::connector::outcome_view;
use crate::connector::ConnectorOrigin;
use crate::connector::TlsConnector;
use crate::connector::TlsConnectorView;
use crate::error::TlsError;
use crate::tls::Certificate;
use crate::tls::Identity;
use crate::tls::TlsProvider;

verus! {

/// The backend that was chosen, with the backend object that the caller may have supplied
/// to be used in place of anything built from certificates.
///
/// Each backend has a slot for its own object only, so settings cannot hold an override for
/// a backend that they did not choose.
#[derive(Clone)]
pub enum ProviderSettings {
    OpenSsl { connector: Option<SslConnector> },
    Rustls { config: Option<ClientConfig> },
}

/// TLS settings for endpoints.
#[derive(Clone)]
pub struct ClientTlsConfig {
    provider: ProviderSettings,
    domain: Option<String>,
    cert: Option<Certificate>,
    identity: Option<Identity>,
}

/// What TLS settings are, to a contract.
pub struct ClientTlsConfigView {
    pub provider: ProviderSettings,
    pub domain: Option<Seq<char>>,
    pub cert: Option<Certificate>,
    pub identity: Option<Identity>,
}

impl ProviderSettings {
    /// The backend that was chosen.
    pub open spec fn spec_provider(self) -> TlsProvider {
        match self {
            ProviderSettings::OpenSsl { .. } => TlsProvider::OpenSsl,
            ProviderSettings::Rustls { .. } => TlsProvider::Rustls,
        }
    }
}

impl ClientTlsConfigView {
    /// Fresh settings for `provider`: nothing else is set.
    pub open spec fn fresh(provider: TlsProvider) -> Self {
        ClientTlsConfigView {
            provider: match provider {
                TlsProvider::OpenSsl => ProviderSettings::OpenSsl { connector: None },
                TlsProvider::Rustls => ProviderSettings::Rustls { config: None },
            },
            domain: None,
            cert: None,
            identity: None,
        }
    }

    /// These settings with the verification domain replaced.
    pub open spec fn with_domain_name(self, domain: Seq<char>) -> Self {
        ClientTlsConfigView { domain: Some(domain), ..self }
    }

    /// These settings with the CA certificate replaced.
    pub open spec fn with_ca_certificate(self, cert: Certificate) -> Self {
        ClientTlsConfigView { cert: Some(cert), ..self }
    }

    /// These settings with the client identity replaced.
    pub open spec fn with_identity(self, identity: Identity) -> Self {
        ClientTlsConfigView { identity: Some(identity), ..self }
    }

    /// These settings with the OpenSSL connector replaced, where OpenSSL was chosen; settings
    /// for another backend have no slot for it and stay as they are.
    pub open spec fn with_openssl_connector(self, connector: SslConnector) -> Self {
        match self.provider {
            ProviderSettings::OpenSsl { .. } => ClientTlsConfigView {
                provider: ProviderSettings::OpenSsl { connector: Some(connector) },
                ..self
            },
            ProviderSettings::Rustls { .. } => self,
        }
    }

    /// These settings with the rustls configuration replaced, where rustls was chosen;
    /// settings for another backend have no slot for it and stay as they are.
    pub open spec fn with_rustls_client_config(self, config: ClientConfig) -> Self {
        match self.provider {
            ProviderSettings::Rustls { .. } => ClientTlsConfigView {
                provider: ProviderSettings::Rustls { config: Some(config) },
                ..self
            },
            ProviderSettings::OpenSsl { .. } => self,
        }
    }

    /// The domain that a connector for `target` checks the peer's certificate against: the
    /// domain that was set, or else the text of the target.
    pub open spec fn resolved_domain(self, target: Seq<char>) -> Seq<char> {
        match self.domain {
            Some(domain) => domain,
            None => target,
        }
    }

    /// What is known of the outcome `r` of resolving these settings for `target`.
    ///
    /// Where the caller supplied a backend object, resolution succeeds with a connector around
    /// that object; the certificate and the identity play no part. Otherwise the connector is
    /// built from the certificate and the identity, as the backend's constructor says.
    pub open spec fn resolves_to(
        self,
        target: Seq<char>,
        r: Result<TlsConnectorView, TlsError>,
    ) -> bool {
        match self.raw_backend() {
            Some(backend) => r == Ok::<TlsConnectorView, TlsError>(
                TlsConnectorView::raw(backend, self.resolved_domain(target)),
            ),
            None => match self.provider {
                ProviderSettings::OpenSsl { .. } => TlsConnector::openssl_cert_outcome(
                    self.cert,
                    self.identity,
                    self.resolved_domain(target),
                    r,
                ),
                ProviderSettings::Rustls { .. } => TlsConnector::rustls_cert_outcome(
                    self.cert,
                    self.identity,
                    self.resolved_domain(target),
                    r,
                ),
            },
        }
    }

    /// The backend object that the caller supplied, as a connector holds it.
    pub open spec fn raw_backend(self) -> Option<Backend> {
        match self.provider {
            ProviderSettings::OpenSsl { connector: Some(connector) } => Some(
                Backend::OpenSsl(connector),
            ),
            ProviderSettings::Rustls { config: Some(config) } => Some(
                Backend::Rustls(Arc::new(config)),
            ),
            _ => None,
        }
    }
}

impl View for ClientTlsConfig {
    type V = ClientTlsConfigView;

    closed spec fn view(&self) -> ClientTlsConfigView {
        ClientTlsConfigView {
            provider: self.provider,
            domain: match self.domain {
                Some(domain) => Some(domain@),
                None => None,
            },
            cert: self.cert,
            identity: self.identity,
        }
    }
}

impl ClientTlsConfig {
    /// Fresh settings that use OpenSSL.
    pub fn with_openssl() -> (c: Self)
        ensures
            c@ == ClientTlsConfigView::fresh(TlsProvider::OpenSsl),
    {
        Self::new(TlsProvider::OpenSsl)
    }

    /// Fresh settings that use rustls.
    pub fn with_rustls() -> (c: Self)
        ensures
            c@ == ClientTlsConfigView::fresh(TlsProvider::Rustls),
    {
        Self::new(TlsProvider::Rustls)
    }

    fn new(provider: TlsProvider) -> (c: Self)
        ensures
            c@ == ClientTlsConfigView::fresh(provider),
    {
        ClientTlsConfig {
            provider: match provider {
                TlsProvider::OpenSsl => ProviderSettings::OpenSsl { connector: None },
                TlsProvider::Rustls => ProviderSettings::Rustls { config: None },
            },
            domain: None,
            cert: None,
            identity: None,
        }
    }

    /// The backend that these settings use.
    pub fn provider(&self) -> (p: TlsProvider)
        ensures
            p == self@.provider.spec_provider(),
    {
        match &self.provider {
            ProviderSettings::OpenSsl { .. } => TlsProvider::OpenSsl,
            ProviderSettings::Rustls { .. } => TlsProvider::Rustls,
        }
    }

    /// The domain name that was set, against which to verify the server's certificate.
    pub fn get_domain_name(&self) -> (domain: Option<&str>)
        ensures
            match domain {
                Some(d) => self@.domain == Some(d@),
                None => self@.domain is None,
            },
    {
        match &self.domain {
            Some(d) => Some(d.as_str()),
            None => None,
        }
    }

    /// The CA certificate that was set.
    pub fn get_ca_certificate(&self) -> (cert: Option<&Certificate>)
        ensures
            match cert {
                Some(c) => self@.cert == Some(*c),
                None => self@.cert is None,
            },
    {
        self.cert.as_ref()
    }

    /// The client identity that was set.
    pub fn get_identity(&self) -> (identity: Option<&Identity>)
        ensures
            match identity {
                Some(i) => self@.identity == Some(*i),
                None => self@.identity is None,
            },
    {
        self.identity.as_ref()
    }

    /// Whether a backend object was supplied, to be used in place of anything built from
    /// the certificate and the identity.
    pub fn has_raw_override(&self) -> (b: bool)
        ensures
            b == self@.raw_backend() is Some,
    {
        match &self.provider {
            ProviderSettings::OpenSsl { connector } => connector.is_some(),
            ProviderSettings::Rustls { config } => config.is_some(),
        }
    }

    /// Sets the domain name against which to verify the server's certificate.
    pub fn domain_name(&mut self, domain_name: String) -> (ret: &mut Self)
        ensures
            ret@ == old(self)@.with_domain_name(domain_name@),
            *final(self) == *final(ret),
    {
        self.domain = Some(domain_name);
        self
    }

    /// Sets the CA certificate against which to verify the server's certificate.
    pub fn ca_certificate(&mut self, ca_certificate: Certificate) -> (ret: &mut Self)
        ensures
            ret@ == old(self)@.with_ca_certificate(ca_certificate),
            *final(self) == *final(ret),
    {
        self.cert = Some(ca_certificate);
        self
    }

    /// Sets the client identity to present to the server.
    pub fn identity(&mut self, identity: Identity) -> (ret: &mut Self)
        ensures
            ret@ == old(self)@.with_identity(identity),
            *final(self) == *final(ret),
    {
        self.identity = Some(identity);
        self
    }

    /// Uses `connector` as it is, in place of anything built from the certificate and the
    /// identity. Settings that do not use OpenSSL stay as they are.
    pub fn openssl_connector(&mut self, connector: SslConnector) -> (ret: &mut Self)
        ensures
            ret@ == old(self)@.with_openssl_connector(connector),
            *final(self) == *final(ret),
    {
        if let ProviderSettings::OpenSsl { .. } = &self.provider {
            self.provider = ProviderSettings::OpenSsl { connector: Some(connector) };
        }
        self
    }

    /// Uses `config` as it is, in place of anything built from the certificate and the
    /// identity. Settings that do not use rustls stay as they are.
    pub fn rustls_client_config(&mut self, config: ClientConfig) -> (ret: &mut Self)
        ensures
            ret@ == old(self)@.with_rustls_client_config(config),
            *final(self) == *final(ret),
    {
        if let ProviderSettings::Rustls { .. } = &self.provider {
            self.provider = ProviderSettings::Rustls { config: Some(config) };
        }
        self
    }

    /// The verification domain of a connector for `target`.
    pub fn resolve_domain(&self, target: &str) -> (domain: String)
        ensures
            domain@ == self@.resolved_domain(target@),
    {
        match &self.domain {
            None => target.to_owned(),
            Some(domain) => domain.clone(),
        }
    }

    /// Resolves these settings into a connector for the target whose text is `target`.
    pub fn tls_connector(&self, target: &str) -> (r: Result<TlsConnector, TlsError>)
        ensures
            self@.resolves_to(target@, outcome_view(r)),
    {
        let domain = self.resolve_domain(target);
        match &self.provider {
            ProviderSettings::OpenSsl { connector } => match connector {
                None => TlsConnector::new_with_openssl_cert(&self.cert, &self.identity, domain),
                Some(r) => TlsConnector::new_with_openssl_raw(r.clone(), domain),
            },
            ProviderSettings::Rustls { config } => match config {
                None => TlsConnector::new_with_rustls_cert(&self.cert, &self.identity, domain),
                Some(c) => TlsConnector::new_with_rustls_raw(c.clone(), domain),
            },
        }
    }
}

/// With a backend object supplied, the certificate and the identity play no part: settings
/// that differ only in those two resolve alike, and what they resolve into is a connector
/// around that object, which says of itself that it was built from one.
pub proof fn lemma_raw_override_ignores_material(
    a: ClientTlsConfigView,
    b: ClientTlsConfigView,
    target: Seq<char>,
    r: Result<TlsConnectorView, TlsError>,
)
    requires
        a.provider == b.provider,
        a.domain == b.domain,
        a.raw_backend() is Some,
    ensures
        a.resolves_to(target, r) == b.resolves_to(target, r),
        a.resolves_to(target, r) ==> (r matches Ok(c) && Some(c.backend) == a.raw_backend()
            && c.origin == ConnectorOrigin::RawOverride),
{
}

/// The domain of a connector is the domain that was set, and where none was set, the text
/// of the target.
pub proof fn lemma_domain_of_connector(
    settings: ClientTlsConfigView,
    target: Seq<char>,
    connector: TlsConnectorView,
)
    requires
        settings.resolves_to(target, Ok(connector)),
    ensures
        settings.domain is None ==> connector.domain == target,
        settings.domain matches Some(domain) ==> connector.domain == domain,
        connector.backend.spec_provider() == settings.provider.spec_provider(),
        connector.origin == ConnectorOrigin::RawOverride <==> settings.raw_backend() is Some,
{
}

/// A setter of TLS settings overwrites: of two calls in a row, only the second shows.
pub proof fn lemma_tls_setters_overwrite(
    settings: ClientTlsConfigView,
    domain_a: Seq<char>,
    domain_b: Seq<char>,
    cert_a: Certificate,
    cert_b: Certificate,
    identity_a: Identity,
    identity_b: Identity,
)
    ensures
        settings.with_domain_name(domain_a).with_domain_name(domain_b)
            == settings.with_domain_name(domain_b),
        settings.with_ca_certificate(cert_a).with_ca_certificate(cert_b)
            == settings.with_ca_certificate(cert_b),
        settings.with_identity(identity_a).with_identity(identity_b) == settings.with_identity(
            identity_b,
        ),
{
}

/// A backend object that is supplied after another replaces it.
pub proof fn lemma_raw_overrides_overwrite(
    settings: ClientTlsConfigView,
    connector_a: SslConnector,
    connector_b: SslConnector,
    config_a: ClientConfig,
    config_b: ClientConfig,
)
    ensures
        settings.with_openssl_connector(connector_a).with_openssl_connector(connector_b)
            == settings.with_openssl_connector(connector_b),
        settings.with_rustls_client_config(config_a).with_rustls_client_config(config_b)
            == settings.with_rustls_client_config(config_b),
{
}

/// The backend is chosen when the settings are made, and no setter changes it. A backend
/// object for the other backend changes nothing at all.
pub proof fn lemma_provider_is_fixed(
    settings: ClientTlsConfigView,
    domain: Seq<char>,
    cert: Certificate,
    identity: Identity,
    connector: SslConnector,
    config: ClientConfig,
)
    ensures
        settings.with_domain_name(domain).provider == settings.provider,
        settings.with_ca_certificate(cert).provider == settings.provider,
        settings.with_identity(identity).provider == settings.provider,
        settings.with_openssl_connector(connector).provider.spec_provider()
            == settings.provider.spec_provider(),
        settings.with_rustls_client_config(config).provider.spec_provider()
            == settings.provider.spec_provider(),
        settings.provider is Rustls ==> settings.with_openssl_connector(connector) == settings,
        settings.provider is OpenSsl ==> settings.with_rustls_client_config(config) == settings,
{
}

} // verus!
