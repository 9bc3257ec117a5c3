use quicssh_rs::addr::SockAddr;
use quicssh_rs::client::{
    check_options, connection_target, server_port, validate_url_scheme, ClientError, Opt,
    ServerUrl, DEFAULT_QUIC_PORT,
};
use quicssh_rs::transport::{client_transport, enable_mtud_if_supported, mtu_bound_for_platform};

#[test]
fn test_validate_url_scheme_valid() {
    let url = ServerUrl::parse("quic://example.com:4433").unwrap();
    assert!(validate_url_scheme(&url).is_ok());
}

#[test]
fn test_validate_url_scheme_invalid() {
    let url = ServerUrl::parse("http://example.com:4433").unwrap();
    assert!(validate_url_scheme(&url).is_err());

    let url = ServerUrl::parse("https://example.com:4433").unwrap();
    assert!(validate_url_scheme(&url).is_err());
}

/// The Debug text of a transport configuration, which lists its settings.
fn quinn_text(t: quicssh_rs::transport::Transport) -> String {
    format!("{:?}", t.into_config())
}

#[test]
fn test_enable_mtud_if_supported_with_custom_mtu() {
    let transport_config = enable_mtud_if_supported(mtu_bound_for_platform(true, Some(1200)));
    let text = quinn_text(transport_config);
    assert!(text.contains("upper_bound: 1200"), "{}", text);
}

#[test]
fn test_enable_mtud_if_supported_with_none() {
    let transport_config = enable_mtud_if_supported(mtu_bound_for_platform(true, None));
    let text = quinn_text(transport_config);
    assert!(text.contains("upper_bound: 1452"), "{}", text);
    assert_eq!(text, format!("{:?}", quinn::TransportConfig::default()));
}

#[test]
fn test_enable_mtud_if_supported_unsupported_platform() {
    let transport_config = enable_mtud_if_supported(mtu_bound_for_platform(false, Some(1200)));
    assert_eq!(quinn_text(transport_config), format!("{:?}", quinn::TransportConfig::default()));
}

#[test]
fn url_parts_are_read() {
    let url = ServerUrl::parse("quic://[::1]:2222/path").unwrap();
    assert_eq!(url.scheme, "quic");
    assert_eq!(url.host.as_deref(), Some("[::1]"));
    assert_eq!(url.port, Some(2222));

    let url = ServerUrl::parse("QUIC://Example.COM").unwrap();
    assert_eq!(url.scheme, "quic");
    // the host of a scheme without special rules is kept as written
    assert_eq!(url.host.as_deref(), Some("Example.COM"));
    assert_eq!(url.port, None);
    assert!(validate_url_scheme(&url).is_ok());
}

#[test]
fn url_without_scheme_is_refused() {
    assert_eq!(ServerUrl::parse("//example.com:4433"), Err(ClientError::InvalidUrl));
    assert_eq!(ServerUrl::parse("quic://exa mple.com"), Err(ClientError::InvalidUrl));
    assert_eq!(ServerUrl::parse(""), Err(ClientError::InvalidUrl));
}

#[test]
fn server_port_defaults_to_4433() {
    let url = ServerUrl::parse("quic://example.com").unwrap();
    assert_eq!(server_port(&url), DEFAULT_QUIC_PORT);
    assert_eq!(server_port(&url), 4433);
    let url = ServerUrl::parse("quic://example.com:22333").unwrap();
    assert_eq!(server_port(&url), 22333);
    // a scheme with a well-known port keeps it
    let url = ServerUrl::parse("https://example.com").unwrap();
    assert_eq!(server_port(&url), 443);
}

fn opt(url: &str, mtu: Option<&str>) -> Opt {
    Opt {
        url: ServerUrl::parse(url).unwrap(),
        bind_addr: None,
        mtu_upper_bound: mtu.map(|s| s.to_string()),
    }
}

#[test]
fn check_options_orders_its_errors() {
    assert_eq!(check_options(&opt("quic://h:1", None)), Ok(None));
    assert_eq!(check_options(&opt("quic://h:1", Some("safety"))), Ok(Some(1200)));
    assert_eq!(check_options(&opt("quic://h:1", Some("1300"))), Ok(Some(1300)));
    assert_eq!(check_options(&opt("quic://h:1", Some("big"))), Err(ClientError::InvalidMtu));
    assert_eq!(check_options(&opt("quic://h:1", Some("65536"))), Err(ClientError::InvalidMtu));
    // the scheme is checked first
    assert_eq!(check_options(&opt("http://h:1", Some("big"))), Err(ClientError::SchemeNotQuic));
    assert_eq!(ClientError::SchemeNotQuic.message(), "URL scheme must be quic");
    assert_eq!(ClientError::InvalidMtu.message(), "Invalid MTU value");
    assert_eq!(ClientError::Unresolved.message(), "Couldn't resolve to any address");
}

#[test]
fn connection_target_strips_ipv6_brackets() {
    let o = opt("quic://[::1]:4433", None);
    let remote = SockAddr::v6(1, 4433);
    let t = connection_target(&o, &vec![remote, SockAddr::v4([10, 0, 0, 1], 1)]);
    assert_eq!(t.remote, remote);
    assert_eq!(t.server_name, "::1");
    assert_eq!(t.bind, SockAddr::V6 { ip: 0, port: 0, flowinfo: 0, scope_id: 0 });
}

#[test]
fn connection_target_binds_by_family_or_option() {
    let mut o = opt("quic://example.com", None);
    let remote = SockAddr::v4([93, 184, 216, 34], 4433);
    let t = connection_target(&o, &vec![remote]);
    assert_eq!(t.server_name, "example.com");
    assert_eq!(t.bind, SockAddr::V4 { ip: 0, port: 0 });

    let local = SockAddr::v4([192, 168, 0, 2], 5000);
    o.bind_addr = Some(local);
    let t = connection_target(&o, &vec![remote]);
    assert_eq!(t.bind, local);
}

#[test]
fn client_transport_settings() {
    let text = quinn_text(client_transport(Some(1300)));
    assert!(text.contains("upper_bound: 1300"), "{}", text);
    assert!(text.contains("max_idle_timeout: Some(60000)"), "{}", text);
    assert!(text.contains("keep_alive_interval: Some(1s)"), "{}", text);
    assert!(text.contains("max_concurrent_uni_streams: 100"), "{}", text);
    let text = quinn_text(client_transport(None));
    assert!(text.contains("upper_bound: 1452"), "{}", text);
    // quinn caps the bound at the largest UDP payload
    let text = quinn_text(client_transport(Some(65535)));
    assert!(text.contains("upper_bound: 65527"), "{}", text);
}

#[test]
fn v4_address_bits() {
    assert_eq!(SockAddr::v4([192, 168, 1, 1], 2222), SockAddr::V4 { ip: 0xc0a8_0101, port: 2222 });
    assert_eq!(SockAddr::v4([127, 0, 0, 1], 22).port(), 22);
    assert!(SockAddr::v6(1, 1).is_ipv6());
    assert!(!SockAddr::v4([1, 2, 3, 4], 1).is_ipv6());
}
