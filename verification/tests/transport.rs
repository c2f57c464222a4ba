use breez_sdk_spark::spark::transport::{
    check_protocol, connect_target, invalid_host, is_local_host, should_bypass_tls_verification,
    DefaultConnectionManager, EndpointSettings, OperatorConfig, TlsChoice,
};

#[test]
fn bypasses_tls_only_for_loopback_without_custom_ca() {
    assert!(should_bypass_tls_verification(
        "https://localhost:8535",
        None,
    ));
    assert!(should_bypass_tls_verification(
        "https://127.0.0.1:8535",
        None,
    ));
    assert!(!should_bypass_tls_verification(
        "https://localhost:8535",
        Some(b"custom-ca"),
    ));
    assert!(!should_bypass_tls_verification(
        "https://0.spark.minikube.local",
        Some(b"custom-ca"),
    ));
    assert!(should_bypass_tls_verification(
        "https://0.spark.minikube.local",
        None,
    ));
    assert!(!should_bypass_tls_verification(
        "https://0.spark.lightspark.com",
        None,
    ));
}

#[test]
fn what_is_no_url_is_not_local() {
    assert!(!should_bypass_tls_verification("not a url", None));
    assert!(!should_bypass_tls_verification("", None));
    assert!(!should_bypass_tls_verification("/path", None));
    assert!(!should_bypass_tls_verification("https://minikube.local", None));
}

#[test]
fn local_hosts_are_named() {
    assert!(is_local_host("::1"));
    assert!(is_local_host(".minikube.local"));
    assert!(!is_local_host("LOCALHOST"));
    assert!(!is_local_host("minikube.local"));
    assert!(!is_local_host("localhost.example"));
}

#[test]
fn endpoints_are_set_up() {
    let default_agent = || "agent".to_string();
    let local =
        EndpointSettings::for_operator("https://localhost:8535", None, None, default_agent());
    assert_eq!(local.url, "http://localhost:8535");
    assert!(matches!(local.tls, TlsChoice::Bypass));
    assert_eq!(local.user_agent, "agent");
    assert_eq!(local.timeout_secs, Some(60));
    assert_eq!(local.http2_keep_alive_interval_secs, 5);
    assert_eq!(local.tcp_keepalive_secs, 5);
    assert_eq!(local.keep_alive_timeout_secs, 5);
    assert!(local.keep_alive_while_idle);
    let plain =
        EndpointSettings::for_operator("http://localhost/https://", None, None, default_agent());
    assert_eq!(plain.url, "http://localhost/http://");
    let remote = EndpointSettings::for_operator(
        "https://0.spark.lightspark.com",
        None,
        Some("mine".to_string()),
        default_agent(),
    );
    assert_eq!(remote.url, "https://0.spark.lightspark.com");
    assert!(matches!(remote.tls, TlsChoice::WebpkiRoots));
    assert_eq!(remote.user_agent, "mine");
    let own = EndpointSettings::for_operator(
        "https://localhost:8535",
        Some(vec![1]),
        None,
        default_agent(),
    );
    assert_eq!(own.url, "https://localhost:8535");
    match own.tls {
        TlsChoice::CustomCa(c) => assert_eq!(c, vec![1]),
        _ => panic!("Expected a custom authority"),
    }
    let service = EndpointSettings::for_service("https://localhost", "agent");
    assert_eq!(service.url, "https://localhost");
    assert!(matches!(service.tls, TlsChoice::WebpkiRoots));
    assert_eq!(service.timeout_secs, None);
}

#[test]
fn connections_go_to_the_host() {
    let host = || Some("localhost".to_string());
    assert_eq!(connect_target(host(), Some(8535)), Ok(("localhost".to_string(), 8535)));
    assert_eq!(connect_target(host(), None), Ok(("localhost".to_string(), 443)));
    assert_eq!(connect_target(None, Some(1)), Err("missing host".to_string()));
    assert_eq!(invalid_host("a b", "bad"), "invalid host a b: bad");
}

#[test]
fn only_http2_is_spoken() {
    assert_eq!(check_protocol(Some(b"h2")), Ok(()));
    let refused = Err("gRPC TLS handshake did not negotiate h2".to_string());
    assert_eq!(check_protocol(Some(b"http/1.1")), refused);
    assert_eq!(check_protocol(None), refused);
}

fn operator(address: &str) -> OperatorConfig {
    OperatorConfig { address: address.to_string(), ca_cert: None, user_agent: None }
}

#[test]
fn connections_are_used_again() {
    let mut manager: DefaultConnectionManager<u32> = DefaultConnectionManager::new();
    assert_eq!(manager.get_transport(&operator("a")), None);
    manager.remember(&operator("a"), 1);
    manager.remember(&operator("b"), 2);
    assert_eq!(manager.get_transport(&operator("a")), Some(&1));
    assert_eq!(manager.get_transport(&operator("b")), Some(&2));
    assert_eq!(manager.get_transport(&operator("c")), None);
    manager.remember(&operator("a"), 3);
    assert_eq!(manager.get_transport(&operator("a")), Some(&3));
}
