//! Endpoint configuration and TLS connector resolution for a gRPC client channel.
//!
//! An [`Endpoint`] says where a channel connects to and how its connections behave: the
//! target, a timeout, limits on concurrency and rate, the window sizes of HTTP/2 flow
//! control, an interceptor of outbound headers, and TLS. TLS is described by a
//! [`ClientTlsConfig`], which an endpoint resolves into a [`TlsConnector`] at the moment it is
//! given one, so that bad settings show before any connection is tried.
//!
//! The modules `target`, `openssl_backend` and `rustls_backend` hold the calls into the `http`,
//! `openssl` and `rustls` crates, and `shared` the one into `Arc`. What those calls do is
//! taken on trust, as each contract there says; everything else is proved from them.

pub mod connector;
pub mod endpoint;
pub mod error;
pub mod interceptor;
pub mod never;
pub mod openssl_backend;
pub mod rustls_backend;
mod shared;
pub mod target;
pub mod tls;
pub mod tls_config;

pub use connector::TlsConnector;
pub use endpoint::Endpoint;
pub use never::Never;
pub use tls::Certificate;
pub use tls::Identity;
pub use tls_config::ClientTlsConfig;
