//! Connection options for an MQTT client: the reconnection policy, the TLS
//! settings and the aggregate of all parameters that a connection manager
//! reads. Everything here is inert data with verified construction rules.

pub mod interval;
pub mod options;
pub mod reconnect;
pub mod tls;

pub use options::MqttOptions;
pub use reconnect::{LinkEvent, ReconnectOptions};
pub use rustls::ClientConfig as RustlsConfig;
pub use tls::TlsOptions;
