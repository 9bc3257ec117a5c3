//! QUIC transport settings: the MTU discovery bound, the idle timeout, the
//! keep-alive interval and the stream limits that client and server choose.

use vstd::prelude::*;

verus! {

/// The idle timeout of both sides, in milliseconds.
pub const IDLE_TIMEOUT_MS: u32 = 60_000;

/// The keep-alive interval of both sides, in seconds.
pub const KEEP_ALIVE_SECS: u64 = 1;

/// quinn's default upper bound of the MTU search, in bytes.
pub const DEFAULT_MTU_UPPER_BOUND: u16 = 1452;

/// The highest upper bound quinn accepts: the largest UDP payload over IPv6.
pub const MAX_UDP_PAYLOAD: u16 = 65527;

#[verifier::external_type_specification]
#[verifier::external_body]
pub struct ExTransportConfig(quinn::TransportConfig);

#[verifier::external_type_specification]
#[verifier::external_body]
pub struct ExMtuDiscoveryConfig(quinn::MtuDiscoveryConfig);

/// The MTU discovery setting that this program changes: the upper bound of
/// the search (interval, minimum change and black-hole cooldown keep quinn's
/// defaults).
#[derive(Clone, Copy, Debug, PartialEq, Eq, Structural)]
pub struct MtuDiscoverySettings {
    pub upper_bound: u16,
}

/// The transport settings that this program changes, as a quinn
/// `TransportConfig` holds them; every other setting keeps quinn's default.
#[derive(Clone, Copy, Debug, PartialEq, Eq, Structural)]
pub struct TransportSettings {
    /// MTU discovery, or `None` where it is off.
    pub mtu_discovery: Option<MtuDiscoverySettings>,
    /// Maximum idle time before the connection times out, in milliseconds
    /// (`None`: no timeout).
    pub max_idle_timeout_ms: Option<u64>,
    /// Period of inactivity before a keep-alive packet is sent, in seconds
    /// (`None`: no keep-alive packets).
    pub keep_alive_interval_secs: Option<u64>,
    /// Maximum number of unidirectional streams the peer may open at once.
    pub max_concurrent_uni_streams: u64,
}

/// quinn's default MTU discovery configuration.
pub open spec fn default_mtu_discovery() -> MtuDiscoverySettings {
    MtuDiscoverySettings { upper_bound: DEFAULT_MTU_UPPER_BOUND }
}

/// quinn's default transport configuration: MTU discovery up to 1452 bytes,
/// a 30 s idle timeout, no keep-alive packets and 100 unidirectional streams.
pub open spec fn default_settings() -> TransportSettings {
    TransportSettings {
        mtu_discovery: Some(default_mtu_discovery()),
        max_idle_timeout_ms: Some(30_000),
        keep_alive_interval_secs: None,
        max_concurrent_uni_streams: 100,
    }
}

/// The upper bound quinn keeps when it is asked for `requested`.
pub open spec fn capped_mtu(requested: u16) -> u16 {
    if requested <= MAX_UDP_PAYLOAD { requested } else { MAX_UDP_PAYLOAD }
}

/// A quinn MTU discovery configuration together with its model.
pub struct MtuDiscovery {
    config: quinn::MtuDiscoveryConfig,
    model: Ghost<MtuDiscoverySettings>,
}

impl View for MtuDiscovery {
    type V = MtuDiscoverySettings;

    closed spec fn view(&self) -> MtuDiscoverySettings {
        self.model@
    }
}

impl MtuDiscovery {
    /// Calls `quinn::MtuDiscoveryConfig::default`, whose upper bound is 1452.
    #[verifier::external_body]
    fn new() -> (d: MtuDiscovery)
        ensures
            d@ == default_mtu_discovery(),
    {
        MtuDiscovery { config: quinn::MtuDiscoveryConfig::default(), model: Ghost(default_mtu_discovery()) }
    }

    /// Calls `quinn::MtuDiscoveryConfig::upper_bound`, which sets the upper
    /// bound to `value`, capped at 65527.
    #[verifier::external_body]
    fn set_upper_bound(&mut self, value: u16)
        ensures
            final(self)@ == (MtuDiscoverySettings { upper_bound: capped_mtu(value) }),
    {
        self.config.upper_bound(value);
    }
}

/// A quinn transport configuration together with its model.
pub struct Transport {
    pub(crate) config: quinn::TransportConfig,
    model: Ghost<TransportSettings>,
}

impl View for Transport {
    type V = TransportSettings;

    closed spec fn view(&self) -> TransportSettings {
        self.model@
    }
}

impl Transport {
    /// Calls `quinn::TransportConfig::default`.
    #[verifier::external_body]
    fn new() -> (t: Transport)
        ensures
            t@ == default_settings(),
    {
        Transport { config: quinn::TransportConfig::default(), model: Ghost(default_settings()) }
    }

    /// Calls `quinn::TransportConfig::mtu_discovery_config` with the MTU
    /// discovery configuration.
    #[verifier::external_body]
    fn set_mtu_discovery(&mut self, discovery: MtuDiscovery)
        ensures
            final(self)@ == (TransportSettings { mtu_discovery: Some(discovery@), ..old(self)@ }),
    {
        self.config.mtu_discovery_config(Some(discovery.config));
    }

    /// Calls `quinn::TransportConfig::max_idle_timeout` with `ms`
    /// milliseconds (`VarInt::from_u32`).
    #[verifier::external_body]
    fn set_max_idle_timeout(&mut self, ms: u32)
        ensures
            final(self)@ == (TransportSettings { max_idle_timeout_ms: Some(ms as u64), ..old(self)@ }),
    {
        self.config.max_idle_timeout(Some(quinn::VarInt::from_u32(ms).into()));
    }

    /// Calls `quinn::TransportConfig::keep_alive_interval` with `secs` seconds.
    #[verifier::external_body]
    fn set_keep_alive_interval(&mut self, secs: u64)
        ensures
            final(self)@ == (TransportSettings { keep_alive_interval_secs: Some(secs), ..old(self)@ }),
    {
        self.config.keep_alive_interval(Some(std::time::Duration::from_secs(secs)));
    }

    /// Calls `quinn::TransportConfig::max_concurrent_uni_streams` with `n`.
    #[verifier::external_body]
    fn set_max_concurrent_uni_streams(&mut self, n: u8)
        ensures
            final(self)@ == (TransportSettings { max_concurrent_uni_streams: n as u64, ..old(self)@ }),
    {
        self.config.max_concurrent_uni_streams(n.into());
    }

    /// Runs MTU discovery with upper bound `mtu` (capped at 65527) and the
    /// other discovery defaults.
    pub fn set_mtu_upper_bound(&mut self, mtu: u16)
        ensures
            final(self)@ == (TransportSettings {
                mtu_discovery: Some(MtuDiscoverySettings { upper_bound: capped_mtu(mtu) }),
                ..old(self)@
            }),
    {
        let mut discovery = MtuDiscovery::new();
        discovery.set_upper_bound(mtu);
        self.set_mtu_discovery(discovery);
    }

    /// The quinn configuration held, whose settings are those of the model.
    pub closed spec fn config_of(&self) -> quinn::TransportConfig {
        self.config
    }

    /// The quinn configuration held, whose settings are those of the model.
    pub fn into_config(self) -> (c: quinn::TransportConfig)
        ensures
            c == self.config_of(),
    {
        self.config
    }
}

/// The MTU bound to apply: the requested one on a platform where this
/// program runs MTU discovery (Linux and Windows), none elsewhere.
pub fn mtu_bound_for_platform(mtud_supported: bool, requested: Option<u16>) -> (b: Option<u16>)
    ensures
        b == (if mtud_supported { requested } else { None }),
{
    if mtud_supported {
        requested
    } else {
        None
    }
}

/// The MTU discovery that an optional upper bound gives: quinn's default
/// without one, else discovery up to the (capped) bound.
pub open spec fn mtu_discovery_for(upper_bound: Option<u16>) -> Option<MtuDiscoverySettings> {
    match upper_bound {
        None => Some(default_mtu_discovery()),
        Some(m) => Some(MtuDiscoverySettings { upper_bound: capped_mtu(m) }),
    }
}

/// The default transport configuration, with MTU discovery bounded by
/// `upper_bound` where one is given.
pub fn enable_mtud_if_supported(upper_bound: Option<u16>) -> (t: Transport)
    ensures
        t@ == (TransportSettings { mtu_discovery: mtu_discovery_for(upper_bound), ..default_settings() }),
{
    let mut transport = Transport::new();
    if let Some(mtu) = upper_bound {
        transport.set_mtu_upper_bound(mtu);
    }
    transport
}

/// The client's transport settings: the MTU bound, a 60 s idle timeout and a
/// keep-alive packet every second; the rest is quinn's default.
pub open spec fn client_settings(upper_bound: Option<u16>) -> TransportSettings {
    TransportSettings {
        mtu_discovery: mtu_discovery_for(upper_bound),
        max_idle_timeout_ms: Some(IDLE_TIMEOUT_MS as u64),
        keep_alive_interval_secs: Some(KEEP_ALIVE_SECS),
        ..default_settings()
    }
}

/// The server's transport settings: no unidirectional streams, a 60 s idle
/// timeout, a keep-alive packet every second and the MTU bound.
pub open spec fn server_settings(upper_bound: Option<u16>) -> TransportSettings {
    TransportSettings {
        mtu_discovery: mtu_discovery_for(upper_bound),
        max_idle_timeout_ms: Some(IDLE_TIMEOUT_MS as u64),
        keep_alive_interval_secs: Some(KEEP_ALIVE_SECS),
        max_concurrent_uni_streams: 0,
    }
}

/// The transport configuration of the client.
pub fn client_transport(upper_bound: Option<u16>) -> (t: Transport)
    ensures
        t@ == client_settings(upper_bound),
        t@.max_idle_timeout_ms == Some(60_000u64),
        t@.keep_alive_interval_secs == Some(1u64),
        t@.max_concurrent_uni_streams == 100,
        t@.mtu_discovery == Some(MtuDiscoverySettings {
            upper_bound: match upper_bound {
                None => 1452,
                Some(m) => if m <= 65527 { m } else { 65527 },
            },
        }),
{
    let mut transport = enable_mtud_if_supported(upper_bound);
    transport.set_max_idle_timeout(IDLE_TIMEOUT_MS);
    transport.set_keep_alive_interval(KEEP_ALIVE_SECS);
    transport
}

/// The transport configuration of the server.
pub fn server_transport(upper_bound: Option<u16>) -> (t: Transport)
    ensures
        t@ == server_settings(upper_bound),
        t@.max_idle_timeout_ms == Some(60_000u64),
        t@.keep_alive_interval_secs == Some(1u64),
        t@.max_concurrent_uni_streams == 0,
        t@.mtu_discovery == Some(MtuDiscoverySettings {
            upper_bound: match upper_bound {
                None => 1452,
                Some(m) => if m <= 65527 { m } else { 65527 },
            },
        }),
{
    let mut transport = Transport::new();
    transport.set_max_concurrent_uni_streams(0);
    transport.set_max_idle_timeout(IDLE_TIMEOUT_MS);
    transport.set_keep_alive_interval(KEEP_ALIVE_SECS);
    if let Some(mtu) = upper_bound {
        transport.set_mtu_upper_bound(mtu);
    }
    transport
}

/// The upper bound of the MTU search that an MTU option gives: quinn's 1452
/// without one, else the option's value, capped at 65527.
pub open spec fn expected_mtu_bound(upper_bound: Option<u16>) -> u16 {
    match upper_bound {
        None => 1452,
        Some(m) => if m <= 65527 { m } else { 65527 },
    }
}

/// Whatever the MTU option, including none, the client times out after
/// 60 s of idleness, sends a keep-alive packet every second and keeps quinn's
/// 100 unidirectional streams; the option changes only the MTU bound.
pub proof fn lemma_client_settings(a: Option<u16>, b: Option<u16>)
    ensures
        client_settings(a).max_idle_timeout_ms == Some(60_000u64),
        client_settings(a).keep_alive_interval_secs == Some(1u64),
        client_settings(a).max_concurrent_uni_streams == 100,
        client_settings(a).mtu_discovery == Some(MtuDiscoverySettings { upper_bound: expected_mtu_bound(a) }),
        client_settings(a) == (TransportSettings { mtu_discovery: client_settings(a).mtu_discovery, ..client_settings(b) }),
{
}

/// Whatever the MTU option, including none, the server allows no
/// unidirectional streams, times out after 60 s of idleness and sends a
/// keep-alive packet every second; the option changes only the MTU bound.
pub proof fn lemma_server_settings(a: Option<u16>, b: Option<u16>)
    ensures
        server_settings(a).max_idle_timeout_ms == Some(60_000u64),
        server_settings(a).keep_alive_interval_secs == Some(1u64),
        server_settings(a).max_concurrent_uni_streams == 0,
        server_settings(a).mtu_discovery == Some(MtuDiscoverySettings { upper_bound: expected_mtu_bound(a) }),
        server_settings(a) == (TransportSettings { mtu_discovery: server_settings(a).mtu_discovery, ..server_settings(b) }),
{
}

} // verus!
