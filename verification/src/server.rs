//! The server side: its configuration file, the proxy choice for each
//! connection and the QUIC server configuration.

use vstd::prelude::*;
use vstd::string::*;
use crate::addr::{SockAddr, SSH_PORT};
use crate::proxy::ProxyMap;
use crate::text::opt_view;
use crate::transport::{default_settings, server_settings, server_transport, Transport, TransportSettings};

verus! {

/// The address that 127.0.0.1 stands for.
pub const LOCALHOST_V4: u32 = 0x7f00_0001;

/// The server's configuration file: where each TLS server name is proxied to.
pub struct ServerConf {
    pub proxy: ProxyMap,
}

impl ServerConf {
    /// A configuration without proxy entries.
    pub fn new() -> (c: ServerConf)
        ensures
            c.proxy@ == Map::<Seq<char>, SockAddr>::empty(),
    {
        ServerConf { proxy: ProxyMap::new() }
    }
}

/// The name under which the configuration file sets the default proxy.
pub open spec fn default_key() -> Seq<char> {
    "default"@
}

/// The SSH server at 127.0.0.1:22.
pub open spec fn local_ssh() -> SockAddr {
    SockAddr::V4 { ip: LOCALHOST_V4, port: SSH_PORT }
}

/// Where connections go that no entry names: the "default" entry of the
/// configuration, else the --proxy-to option, else 127.0.0.1:22.
pub open spec fn spec_default_proxy(conf: Map<Seq<char>, SockAddr>, proxy_to: Option<SockAddr>) -> SockAddr {
    if conf.contains_key(default_key()) {
        conf[default_key()]
    } else {
        match proxy_to {
            Some(a) => a,
            None => local_ssh(),
        }
    }
}

/// Determines the default proxy address: first the "default" entry of the
/// configuration, then the --proxy-to option, then 127.0.0.1:22.
pub fn determine_default_proxy(conf: &ServerConf, proxy_to_option: Option<SockAddr>) -> (a: SockAddr)
    ensures
        a == spec_default_proxy(conf.proxy@, proxy_to_option),
        conf.proxy@.contains_key("default"@) ==> a == conf.proxy@["default"@],
        !conf.proxy@.contains_key("default"@) && proxy_to_option is Some ==> Some(a) == proxy_to_option,
        !conf.proxy@.contains_key("default"@) && proxy_to_option is None ==> a == (SockAddr::V4 {
            ip: 0x7f00_0001,
            port: 22,
        }),
{
    match conf.proxy.get("default") {
        Some(sock) => sock,
        None => match proxy_to_option {
            Some(a) => a,
            None => SockAddr::V4 { ip: LOCALHOST_V4, port: SSH_PORT },
        },
    }
}

/// The default proxy is the configuration's "default" entry whenever there
/// is one, whatever --proxy-to says; without it, the --proxy-to address; and
/// without both, 127.0.0.1:22.
pub proof fn lemma_default_proxy_priority(conf: Map<Seq<char>, SockAddr>, proxy_to: Option<SockAddr>)
    ensures
        conf.contains_key("default"@) ==> spec_default_proxy(conf, proxy_to) == conf["default"@],
        !conf.contains_key("default"@) ==> match proxy_to {
            Some(a) => spec_default_proxy(conf, proxy_to) == a,
            None => spec_default_proxy(conf, proxy_to) == (SockAddr::V4 { ip: 0x7f00_0001, port: 22 }),
        },
        conf.contains_key("default"@) ==> forall|other: Option<SockAddr>|
            spec_default_proxy(conf, proxy_to) == #[trigger] spec_default_proxy(conf, other),
{
}

/// The name a connection is routed by: the TLS server name it asked for,
/// else the text of its remote IP address.
pub open spec fn spec_route_name(server_name: Option<Seq<char>>, remote_ip: Seq<char>) -> Seq<char> {
    match server_name {
        Some(n) => n,
        None => remote_ip,
    }
}

/// Where an accepted connection is proxied to: the entry of its name, else
/// the default proxy. Returns the name too.
pub fn route_connection(
    conf: &ServerConf,
    server_name: Option<String>,
    remote_ip: String,
    default_proxy: SockAddr,
) -> (r: (String, SockAddr))
    ensures
        r.0@ == spec_route_name(opt_view(server_name), remote_ip@),
        r.1 == (if conf.proxy@.contains_key(r.0@) { conf.proxy@[r.0@] } else { default_proxy }),
{
    let name = match server_name {
        Some(n) => n,
        None => remote_ip,
    };
    let target = match conf.proxy.get(name.as_str()) {
        Some(a) => a,
        None => default_proxy,
    };
    (name, target)
}

/// Why the server refused to start.
#[derive(Debug)]
pub enum ServerError {
    /// No certificate could be generated.
    CertificateGeneration(rcgen::Error),
    /// The generated private key was not recognised.
    PrivateKey(&'static str),
    /// TLS refused the certificate and key.
    Tls(rustls::Error),
}

impl ServerError {
    /// The message that reports the kind of error.
    pub fn message(&self) -> (m: &'static str)
        ensures
            *self is CertificateGeneration ==> m@ == "certificate generation failed"@,
            *self is PrivateKey ==> m@ == "private key not recognised"@,
            *self is Tls ==> m@ == "TLS configuration refused"@,
    {
        match self {
            ServerError::CertificateGeneration(_) => "certificate generation failed",
            ServerError::PrivateKey(_) => "private key not recognised",
            ServerError::Tls(_) => "TLS configuration refused",
        }
    }
}

/// The server's command-line options.
#[derive(Clone, Debug)]
pub struct Opt {
    /// Address to listen on.
    pub listen: SockAddr,
    /// Address of the SSH server.
    pub proxy_to: Option<SockAddr>,
    /// Path of the configuration file.
    pub conf_path: Option<String>,
    /// MTU upper bound: a decimal number of bytes, or "safety" for 1200.
    pub mtu_upper_bound: Option<String>,
}

#[verifier::external_type_specification]
#[verifier::external_body]
pub struct ExRcgenError(rcgen::Error);

#[verifier::external_type_specification]
#[verifier::external_body]
pub struct ExPrivateKeyDer<'a>(rustls::pki_types::PrivateKeyDer<'a>);

#[verifier::external_type_specification]
#[verifier::external_body]
pub struct ExTlsError(rustls::Error);

#[verifier::external_type_specification]
#[verifier::external_body]
pub struct ExServerConfig(quinn::ServerConfig);

/// The content of the DER SEQUENCE that `der` starts with: what follows
/// the tag 0x30 and the length (one byte below 0x80, else 0x80 + n and then
/// n bytes). `None` where `der` starts with no SEQUENCE tag or is too short.
pub open spec fn der_sequence_body(der: Seq<u8>) -> Option<Seq<u8>> {
    if der.len() >= 2 && der[0] == 0x30 {
        let skip: int = if der[1] < 0x80 { 2 } else { 2 + (der[1] - 0x80) };
        if skip <= der.len() {
            Some(der.skip(skip))
        } else {
            None
        }
    } else {
        None
    }
}

/// Whether the SEQUENCE content starts with a one-byte version INTEGER
/// followed by a SEQUENCE: the start of a PKCS#8 PrivateKeyInfo.
pub open spec fn pkcs8_body(b: Seq<u8>) -> bool {
    b.len() >= 4 && b[0] == 0x02 && b[1] == 0x01 && b[3] == 0x30
}

/// Whether `der` starts as every DER encoding of a PKCS#8 PrivateKeyInfo
/// does: a SEQUENCE holding the version INTEGER and then the
/// AlgorithmIdentifier SEQUENCE.
pub open spec fn pkcs8_der(der: Seq<u8>) -> bool {
    match der_sequence_body(der) {
        Some(b) => pkcs8_body(b),
        None => false,
    }
}

/// Whether `rustls::pki_types::PrivateKeyDer::try_from` recognises the bytes
/// as a private key: a SEQUENCE whose content starts as PKCS#8 does, or with
/// the INTEGER 0 (PKCS#1) or 1 (SEC1).
pub open spec fn key_der_recognized(der: Seq<u8>) -> bool {
    match der_sequence_body(der) {
        Some(b) => pkcs8_body(b) || (b.len() >= 3 && b[0] == 0x02 && b[1] == 0x01 && (b[2] == 0x00
            || b[2] == 0x01)),
        None => false,
    }
}

/// Whether `quinn::ServerConfig::with_single_cert` accepts the certificate
/// (DER) as the only one of the chain together with the private key (DER).
pub uninterp spec fn tls_accepts(cert: Seq<u8>, key: Seq<u8>) -> bool;

/// Whether `cert` (DER) is a certificate for the subject alternative names
/// `names`, self-signed with the key pair whose serialized form (DER) is `key`.
pub uninterp spec fn self_signed_for(names: Seq<Seq<char>>, cert: Seq<u8>, key: Seq<u8>) -> bool;

/// Calls `rcgen::generate_simple_self_signed` with the names, and gives the
/// certificate's DER (`Certificate::der`) and the key pair's DER
/// (`KeyPair::serialize_der`). Claims that on success the certificate is one
/// for the names, self-signed with that key pair (rcgen makes it with
/// `CertificateParams::new(names)?.self_signed(&key_pair)`), and that the key
/// pair's bytes are PKCS#8 in DER (as `serialize_der` is documented to give).
/// The key pair is random: which certificate comes back, and whether
/// generation fails, is left unsaid.
#[verifier::external_body]
fn generate_self_signed(names: Vec<String>) -> (r: Result<(Vec<u8>, Vec<u8>), rcgen::Error>)
    ensures
        r matches Ok((cert, key)) ==> self_signed_for(names@.map_values(|n: String| n@), cert@, key@)
            && pkcs8_der(key@),
{
    let certified = rcgen::generate_simple_self_signed(names)?;
    Ok((certified.cert.der().to_vec(), certified.key_pair.serialize_der()))
}

/// A private key as rustls takes it, with the DER it was read from.
pub struct PrivateKey {
    key: rustls::pki_types::PrivateKeyDer<'static>,
    der: Ghost<Seq<u8>>,
}

impl View for PrivateKey {
    type V = Seq<u8>;

    closed spec fn view(&self) -> Seq<u8> {
        self.der@
    }
}

impl PrivateKey {
    /// Calls `PrivateKeyDer::try_from` on the bytes; claims that it succeeds
    /// exactly on the bytes that `key_der_recognized` holds of.
    #[verifier::external_body]
    fn from_der(der: Vec<u8>) -> (r: Result<PrivateKey, &'static str>)
        ensures
            r is Ok <==> key_der_recognized(der@),
            r matches Ok(k) ==> k@ == der@,
    {
        let view = Ghost(der@);
        Ok(PrivateKey { key: rustls::pki_types::PrivateKeyDer::try_from(der)?, der: view })
    }
}

/// What a QUIC server configuration holds that this program sets: the one
/// certificate it presents (DER), its private key (DER) and the transport
/// settings.
pub ghost struct ServerModel {
    pub certificate: Seq<u8>,
    pub key: Seq<u8>,
    pub transport: TransportSettings,
}

/// A quinn server configuration together with its model.
pub struct QuicServerConfig {
    config: quinn::ServerConfig,
    model: Ghost<ServerModel>,
}

impl View for QuicServerConfig {
    type V = ServerModel;

    closed spec fn view(&self) -> ServerModel {
        self.model@
    }
}

impl QuicServerConfig {
    /// Calls `quinn::ServerConfig::with_single_cert` with the one certificate
    /// (its DER as a `CertificateDer`) and the key; claims that it succeeds
    /// exactly where `tls_accepts` holds, and that the configuration then
    /// presents that certificate with that key over quinn's default
    /// transport configuration (`ServerConfig::with_crypto`). Its handshake
    /// token key is random and is left unsaid.
    #[verifier::external_body]
    fn with_single_cert(cert_der: Vec<u8>, key: PrivateKey) -> (r: Result<QuicServerConfig, rustls::Error>)
        ensures
            r is Ok <==> tls_accepts(cert_der@, key@),
            r matches Ok(c) ==> c@ == (ServerModel {
                certificate: cert_der@,
                key: key@,
                transport: default_settings(),
            }),
    {
        let model = Ghost(ServerModel { certificate: cert_der@, key: key@, transport: default_settings() });
        let config = quinn::ServerConfig::with_single_cert(
            vec![rustls::pki_types::CertificateDer::from(cert_der)],
            key.key,
        )?;
        Ok(QuicServerConfig { config, model })
    }

    /// Calls `quinn::ServerConfig::transport_config` with the transport
    /// configuration, which replaces the one held.
    #[verifier::external_body]
    fn set_transport(&mut self, transport: Transport)
        ensures
            final(self)@ == (ServerModel { transport: transport@, ..old(self)@ }),
    {
        self.config.transport_config(std::sync::Arc::new(transport.config));
    }

    /// The quinn configuration held, whose settings are those of the model.
    pub closed spec fn config_of(&self) -> quinn::ServerConfig {
        self.config
    }

    /// The quinn configuration held, whose settings are those of the model.
    pub fn into_config(self) -> (c: quinn::ServerConfig)
        ensures
            c == self.config_of(),
    {
        self.config
    }
}

/// Builds the QUIC server configuration from a certificate and its private
/// key (both DER), with the server's transport settings, and returns it with
/// the certificate.
pub fn server_config_from_cert(cert_der: Vec<u8>, key_der: Vec<u8>, mtu_upper_bound: Option<u16>) -> (r: Result<(QuicServerConfig, Vec<u8>), ServerError>)
    ensures
        r matches Err(ServerError::PrivateKey(_)) <==> !key_der_recognized(key_der@),
        key_der_recognized(key_der@) ==> (r is Ok <==> tls_accepts(cert_der@, key_der@)),
        key_der_recognized(key_der@) && !tls_accepts(cert_der@, key_der@) ==> r matches Err(ServerError::Tls(_)),
        r matches Ok((cfg, der)) ==> der@ == cert_der@ && cfg@ == (ServerModel {
            certificate: cert_der@,
            key: key_der@,
            transport: server_settings(mtu_upper_bound),
        }),
{
    let key = match PrivateKey::from_der(key_der) {
        Ok(k) => k,
        Err(e) => return Err(ServerError::PrivateKey(e)),
    };
    let certificate = cert_der.clone();
    let mut config = match QuicServerConfig::with_single_cert(cert_der, key) {
        Ok(c) => c,
        Err(e) => return Err(ServerError::Tls(e)),
    };
    config.set_transport(server_transport(mtu_upper_bound));
    Ok((config, certificate))
}

/// The names the server's certificate is made for.
pub open spec fn server_cert_names() -> Seq<Seq<char>> {
    seq!["localhost"@]
}

/// Returns the QUIC server configuration, with a fresh self-signed
/// certificate for "localhost", along with that certificate (DER).
pub fn configure_server(mtu_upper_bound: Option<u16>) -> (r: Result<(QuicServerConfig, Vec<u8>), ServerError>)
    ensures
        r matches Ok((cfg, der)) ==> {
            &&& cfg@.certificate == der@
            &&& cfg@.transport == server_settings(mtu_upper_bound)
            &&& self_signed_for(server_cert_names(), der@, cfg@.key)
            &&& key_der_recognized(cfg@.key)
            &&& tls_accepts(der@, cfg@.key)
        },
        !(r matches Err(ServerError::PrivateKey(_))),
        r matches Err(ServerError::Tls(_)) ==> exists|cert: Seq<u8>, key: Seq<u8>|
            self_signed_for(server_cert_names(), cert, key) && key_der_recognized(key) && !tls_accepts(cert, key),
{
    let names = vec![String::from_str("localhost")];
    assert(names@.map_values(|n: String| n@) =~= server_cert_names());
    let (cert_der, key_der) = match generate_self_signed(names) {
        Ok(pair) => pair,
        Err(e) => return Err(ServerError::CertificateGeneration(e)),
    };
    let ghost cert = cert_der@;
    let ghost key = key_der@;
    let r = server_config_from_cert(cert_der, key_der, mtu_upper_bound);
    assert(self_signed_for(server_cert_names(), cert, key));
    assert(key_der_recognized(key));
    r
}

} // verus!
