use std::sync::Arc;

use mqtt_options::{RustlsConfig, TlsOptions};

fn backend_with_alpn(protocol: &[u8]) -> RustlsConfig {
    let mut config = RustlsConfig::builder()
        .with_root_certificates(rustls::RootCertStore::empty())
        .with_no_client_auth();
    config.alpn_protocols = vec![protocol.to_vec()];
    config
}

#[test]
fn tls_new_keeps_host_name_and_config() {
    let tls = TlsOptions::new("broker.example".to_string(), backend_with_alpn(b"mqtt"));
    assert_eq!(tls.hostname, "broker.example");
    assert_eq!(tls.config.alpn_protocols, vec![b"mqtt".to_vec()]);
    assert_eq!(Arc::strong_count(&tls.config), 1);
}

#[test]
fn tls_host_name_is_not_checked() {
    let tls = TlsOptions::new(String::new(), backend_with_alpn(b"x"));
    assert_eq!(tls.hostname, "");
}

#[test]
fn tls_clones_share_one_config() {
    let tls = TlsOptions::new("broker.example".to_string(), backend_with_alpn(b"mqtt"));
    let second = tls.clone();
    let third = second.clone();
    assert_eq!(second.hostname, "broker.example");
    assert_eq!(third.hostname, "broker.example");
    assert!(Arc::ptr_eq(&tls.config, &second.config));
    assert!(Arc::ptr_eq(&tls.config, &third.config));
    assert_eq!(Arc::strong_count(&tls.config), 3);
    assert_eq!(second.config.alpn_protocols, vec![b"mqtt".to_vec()]);
    assert_eq!(third.config.alpn_protocols, tls.config.alpn_protocols);
    drop(second);
    assert_eq!(Arc::strong_count(&tls.config), 2);
}
