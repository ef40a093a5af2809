use pipebased::{DaemonClientBuilder, RpcClientConfig, RpcProtocolType};

#[test]
fn default_config_points_at_localhost() {
    let config = RpcClientConfig::default();
    assert_eq!(config.endpoint(), "http://127.0.0.1:10000");
}

#[test]
fn https_endpoint_uses_its_scheme() {
    let config = RpcClientConfig {
        protocol: RpcProtocolType::Https,
        address: "daemon.example:443".to_string(),
    };
    assert_eq!(config.endpoint(), "https://daemon.example:443");
}

#[test]
fn client_builder_composes_the_endpoint() {
    let endpoint = DaemonClientBuilder::default()
        .protocol(RpcProtocolType::Http)
        .address("10.0.0.7:10000")
        .endpoint();
    assert_eq!(endpoint, "http://10.0.0.7:10000");
}

#[test]
fn protocol_labels() {
    assert_eq!(RpcProtocolType::Http.label(), "http");
    assert_eq!(RpcProtocolType::Https.label(), "https");
}
