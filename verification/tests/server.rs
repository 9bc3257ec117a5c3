use quicssh_rs::addr::SockAddr;
use quicssh_rs::proxy::ProxyMap;
use quicssh_rs::server::{
    configure_server, determine_default_proxy, route_connection,
    server_config_from_cert, ServerConf, ServerError,
};
use quicssh_rs::transport::server_transport;

#[test]
fn test_configure_server_with_mtu() {
    let result = configure_server(Some(1200));
    assert!(result.is_ok());
    let (_server_config, cert) = result.unwrap();

    // Verify that a certificate was generated (DER format is non-empty)
    assert!(!cert.is_empty());
    // Typical self-signed cert DER is several hundred bytes
    assert!(cert.len() > 100);
}

#[test]
fn test_configure_server_without_mtu() {
    let result = configure_server(None);
    assert!(result.is_ok());
    let (_server_config, cert) = result.unwrap();

    assert!(!cert.is_empty());
    assert!(cert.len() > 100);
}

#[test]
fn test_configure_server_creates_valid_config() {
    let result1 = configure_server(Some(1200));
    assert!(result1.is_ok());

    let result2 = configure_server(None);
    assert!(result2.is_ok());

    // Different invocations generate different certs
    let (_, cert1) = result1.unwrap();
    let (_, cert2) = result2.unwrap();
    assert_ne!(cert1, cert2);
}

#[test]
fn test_determine_default_proxy_from_conf() {
    let mut conf = ServerConf::new();
    let default_addr = SockAddr::v4([192, 168, 1, 1], 2222);
    conf.proxy.insert("default".to_string(), default_addr);

    let result = determine_default_proxy(&conf, Some(SockAddr::v4([10, 0, 0, 1], 3333)));
    assert_eq!(result, default_addr); // Conf takes priority
}

#[test]
fn test_determine_default_proxy_from_option() {
    let conf = ServerConf::new();
    let option_addr = SockAddr::v4([10, 0, 0, 1], 3333);

    let result = determine_default_proxy(&conf, Some(option_addr));
    assert_eq!(result, option_addr);
}

#[test]
fn test_determine_default_proxy_fallback() {
    let conf = ServerConf::new();

    let result = determine_default_proxy(&conf, None);
    assert_eq!(result, SockAddr::v4([127, 0, 0, 1], 22));
}

#[test]
fn test_server_conf_new() {
    let conf = ServerConf::new();
    assert!(conf.proxy.is_empty());
}

#[test]
fn proxy_map_insert_get_overwrite() {
    let mut m = ProxyMap::new();
    let a = SockAddr::v4([10, 0, 0, 1], 22);
    let b = SockAddr::v4([10, 0, 0, 2], 22);
    assert_eq!(m.insert("host-a".to_string(), a), None);
    assert_eq!(m.get("host-a"), Some(a));
    assert_eq!(m.get("host-b"), None);
    assert_eq!(m.insert("host-a".to_string(), b), Some(a));
    assert_eq!(m.get("host-a"), Some(b));
    assert_eq!(m.len(), 1);
    m.insert("host-b".to_string(), a);
    assert_eq!(m.len(), 2);
    assert!(!m.is_empty());
    assert_eq!(m.get("host-b"), Some(a));
    assert_eq!(m.get("Host-b"), None);
}

#[test]
fn route_by_server_name_or_remote_ip() {
    let mut conf = ServerConf::new();
    let a = SockAddr::v4([10, 0, 0, 1], 22);
    let by_ip = SockAddr::v4([10, 0, 0, 9], 2200);
    let default = SockAddr::v4([127, 0, 0, 1], 22);
    conf.proxy.insert("a.example".to_string(), a);
    conf.proxy.insert("192.0.2.7".to_string(), by_ip);

    let (name, to) = route_connection(&conf, Some("a.example".to_string()), "192.0.2.7".to_string(), default);
    assert_eq!((name.as_str(), to), ("a.example", a));

    let (name, to) = route_connection(&conf, None, "192.0.2.7".to_string(), default);
    assert_eq!((name.as_str(), to), ("192.0.2.7", by_ip));

    let (name, to) = route_connection(&conf, Some("other".to_string()), "192.0.2.7".to_string(), default);
    assert_eq!((name.as_str(), to), ("other", default));
}

#[test]
fn server_transport_settings() {
    let text = format!("{:?}", server_transport(Some(1400)).into_config());
    assert!(text.contains("upper_bound: 1400"), "{}", text);
    assert!(text.contains("max_idle_timeout: Some(60000)"), "{}", text);
    assert!(text.contains("keep_alive_interval: Some(1s)"), "{}", text);
    assert!(text.contains("max_concurrent_uni_streams: 0"), "{}", text);
    let text = format!("{:?}", server_transport(None).into_config());
    assert!(text.contains("upper_bound: 1452"), "{}", text);
}

#[test]
fn configured_server_uses_the_server_transport() {
    let (config, _) = configure_server(Some(1300)).unwrap();
    let text = format!("{:?}", config.into_config().transport);
    assert!(text.contains("upper_bound: 1300"), "{}", text);
    assert!(text.contains("max_concurrent_uni_streams: 0"), "{}", text);
    assert!(text.contains("max_idle_timeout: Some(60000)"), "{}", text);
}

#[test]
fn server_config_refuses_a_bad_key() {
    let r = server_config_from_cert(vec![1, 2, 3], vec![0, 1, 2, 3], None);
    assert!(matches!(r, Err(ServerError::PrivateKey(_))));
}

#[test]
fn server_config_reports_a_recognised_but_unusable_key_as_tls() {
    // a SEQUENCE holding INTEGER 0 reads as a PKCS#1 key, which TLS then refuses
    let r = server_config_from_cert(vec![1, 2, 3], vec![0x30, 0x03, 0x02, 0x01, 0x00], None);
    assert!(matches!(r, Err(ServerError::Tls(_))));
    // nor is a bare INTEGER a key
    let r = server_config_from_cert(vec![1, 2, 3], vec![0x02, 0x01, 0x00], None);
    assert!(matches!(r, Err(ServerError::PrivateKey(_))));
}
