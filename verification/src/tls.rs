//! TLS settings of a connection: the name to verify the server by, and the
//! backend configuration, which is built once and shared.

use std::sync::Arc;
use vstd::prelude::*;

verus! {

/// The TLS backend's client configuration. Its inside is not looked at here:
/// a value is only carried to the transport layer.
#[verifier::external_type_specification]
#[verifier::external_body]
pub struct ExClientConfig(rustls::ClientConfig);

/// `Arc::clone` hands out one more pointer to the same allocation, so what
/// the new pointer points to is what the old one points to.
#[verifier::external_body]
fn share(config: &Arc<rustls::ClientConfig>) -> (shared: Arc<rustls::ClientConfig>)
    ensures
        shared == *config,
{
    Arc::clone(config)
}

/// The name by which the server's identity is verified, and the backend
/// configuration for the handshake.
///
/// The host name is independent of the broker's address, which may be an IP
/// address or a load balancer. The configuration is held behind a shared
/// pointer and never changed after construction, so that every connection
/// attempt reuses the same trust store and client certificate.
pub struct TlsOptions {
    pub hostname: String,
    pub config: Arc<rustls::ClientConfig>,
}

impl TlsOptions {
    /// Pairs a host name with a backend configuration, which is moved behind
    /// a shared pointer.
    pub fn new(hostname: String, config: rustls::ClientConfig) -> (tls: TlsOptions)
        ensures
            tls.hostname == hostname,
            *tls.config == config,
    {
        TlsOptions { hostname, config: Arc::new(config) }
    }
}

impl Clone for TlsOptions {
    /// A clone has the same host name and points to the same backend
    /// configuration: the configuration is shared, not copied.
    fn clone(&self) -> (tls: TlsOptions)
        ensures
            tls.hostname == self.hostname,
            tls.config == self.config,
            tls == *self,
    {
        TlsOptions { hostname: self.hostname.clone(), config: share(&self.config) }
    }
}

} // verus!
