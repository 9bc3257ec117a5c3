//! The client side: the server URL, the options and the connection target.

use vstd::prelude::*;
use crate::addr::SockAddr;
use crate::mtu::{parse_mtu_upper_bound, spec_mtu_upper_bound};
use crate::text::{opt_view, str_eq, trim_both, trim_end, trim_start};

verus! {

/// The UDP port of the server when the URL names none.
pub const DEFAULT_QUIC_PORT: u16 = 4433;

#[verifier::external_type_specification]
#[verifier::external_body]
pub struct ExUrlParseError(url::ParseError);

/// What `url::Url::parse` makes of a text: `None` where it refuses it, else
/// the URL's scheme, host text and port (the explicit one, or the scheme's
/// well-known one).
pub uninterp spec fn url_parse(text: Seq<char>) -> Option<(Seq<char>, Option<Seq<char>>, Option<u16>)>;

/// The parts of a server URL that the client reads.
#[derive(Clone, Debug, PartialEq, Eq)]
pub struct ServerUrl {
    /// The scheme, lower case, without the ':'.
    pub scheme: String,
    /// The host as the URL writes it (an IPv6 address in brackets), if any.
    pub host: Option<String>,
    /// The explicit port, or the scheme's well-known one, if any.
    pub port: Option<u16>,
}

impl ServerUrl {
    pub open spec fn parts(self) -> (Seq<char>, Option<Seq<char>>, Option<u16>) {
        (self.scheme@, opt_view(self.host), self.port)
    }

    /// Parses an absolute URL.
    pub fn parse(text: &str) -> (r: Result<ServerUrl, ClientError>)
        ensures
            url_parse(text@) is None <==> r is Err,
            r is Err ==> r == Err::<ServerUrl, ClientError>(ClientError::InvalidUrl),
            r matches Ok(u) ==> url_parse(text@) == Some(u.parts()),
    {
        match parse_url(text) {
            Ok(u) => Ok(u),
            Err(_) => Err(ClientError::InvalidUrl),
        }
    }
}

/// Calls `url::Url::parse` and reads the scheme (`Url::scheme`), the host text
/// (`Url::host_str`) and the port (`Url::port_or_known_default`) of the result.
/// Claims that the outcome is the one `url_parse` names for the text.
#[verifier::external_body]
fn parse_url(text: &str) -> (r: Result<ServerUrl, url::ParseError>)
    ensures
        url_parse(text@) is None <==> r is Err,
        r matches Ok(u) ==> url_parse(text@) == Some(u.parts()),
{
    let u = url::Url::parse(text)?;
    Ok(ServerUrl {
        scheme: u.scheme().to_string(),
        host: u.host_str().map(|h| h.to_string()),
        port: u.port_or_known_default(),
    })
}

/// Why the client refused to start.
#[derive(Clone, Copy, Debug, PartialEq, Eq, Structural)]
pub enum ClientError {
    /// The server address is no URL.
    InvalidUrl,
    /// The URL's scheme is not "quic".
    SchemeNotQuic,
    /// The MTU upper bound option is neither "safety" nor a 16-bit number.
    InvalidMtu,
    /// The server's host name resolved to no address.
    Unresolved,
}

impl ClientError {
    /// The message that reports the error.
    pub fn message(&self) -> (m: &'static str)
        ensures
            self == ClientError::InvalidUrl ==> m@ == "invalid URL"@,
            self == ClientError::SchemeNotQuic ==> m@ == "URL scheme must be quic"@,
            self == ClientError::InvalidMtu ==> m@ == "Invalid MTU value"@,
            self == ClientError::Unresolved ==> m@ == "Couldn't resolve to any address"@,
    {
        match self {
            ClientError::InvalidUrl => "invalid URL",
            ClientError::SchemeNotQuic => "URL scheme must be quic",
            ClientError::InvalidMtu => "Invalid MTU value",
            ClientError::Unresolved => "Couldn't resolve to any address",
        }
    }
}

/// Accepts a URL whose scheme is "quic" and refuses any other.
pub fn validate_url_scheme(url: &ServerUrl) -> (r: Result<(), ClientError>)
    ensures
        r is Ok <==> url.scheme@ == "quic"@,
        r is Err ==> r == Err::<(), ClientError>(ClientError::SchemeNotQuic),
{
    if !str_eq(url.scheme.as_str(), "quic") {
        return Err(ClientError::SchemeNotQuic);
    }
    Ok(())
}

/// The client's command-line options.
#[derive(Clone, Debug)]
pub struct Opt {
    /// Server address.
    pub url: ServerUrl,
    /// Local address to bind to.
    pub bind_addr: Option<SockAddr>,
    /// MTU upper bound: a decimal number of bytes, or "safety" for 1200.
    pub mtu_upper_bound: Option<String>,
}

/// What the options give before any name is resolved: the URL must have the
/// scheme "quic", then the MTU upper bound is read.
pub open spec fn spec_check_options(opt: Opt) -> Result<Option<u16>, ClientError> {
    if opt.url.scheme@ != "quic"@ {
        Err(ClientError::SchemeNotQuic)
    } else {
        match spec_mtu_upper_bound(opt_view(opt.mtu_upper_bound)) {
            Ok(b) => Ok(b),
            Err(_) => Err(ClientError::InvalidMtu),
        }
    }
}

/// Checks the scheme of the server URL, then reads the MTU upper bound.
pub fn check_options(opt: &Opt) -> (r: Result<Option<u16>, ClientError>)
    ensures
        r == spec_check_options(*opt),
        opt.url.scheme@ != "quic"@ ==> r == Err::<Option<u16>, ClientError>(ClientError::SchemeNotQuic),
        opt.url.scheme@ == "quic"@ ==> match spec_mtu_upper_bound(opt_view(opt.mtu_upper_bound)) {
            Ok(b) => r == Ok::<Option<u16>, ClientError>(b),
            Err(_) => r == Err::<Option<u16>, ClientError>(ClientError::InvalidMtu),
        },
{
    validate_url_scheme(&opt.url)?;
    match parse_mtu_upper_bound(&opt.mtu_upper_bound) {
        Ok(b) => Ok(b),
        Err(_) => Err(ClientError::InvalidMtu),
    }
}

/// A URL whose scheme is not "quic" is refused with `SchemeNotQuic` whatever
/// the MTU option is, absent or not; with the scheme "quic", the outcome is
/// the MTU option's reading and depends on nothing else.
pub proof fn lemma_scheme_checked_first(opt: Opt)
    ensures
        opt.url.scheme@ != "quic"@ ==> forall|mtu: Option<String>|
            #[trigger] spec_check_options(Opt { mtu_upper_bound: mtu, ..opt })
                == Err::<Option<u16>, ClientError>(ClientError::SchemeNotQuic),
        opt.url.scheme@ == "quic"@ ==> (spec_check_options(opt) is Ok <==> spec_mtu_upper_bound(
            opt_view(opt.mtu_upper_bound),
        ) is Ok),
        opt.url.scheme@ == "quic"@ && opt.mtu_upper_bound is None ==> spec_check_options(opt) == Ok::<
            Option<u16>,
            ClientError,
        >(None),
{
}

/// The port to resolve the server's host with: the URL's, else 4433.
pub fn server_port(url: &ServerUrl) -> (p: u16)
    ensures
        p == match url.port {
            Some(q) => q,
            None => DEFAULT_QUIC_PORT,
        },
{
    match url.port {
        Some(q) => q,
        None => DEFAULT_QUIC_PORT,
    }
}

/// The server name that the client presents when the URL has no host.
pub open spec fn placeholder_server_name() -> Seq<char> {
    "THIS_HOSTNAME_SHOULD_NOT_BE_USED"@
}

/// The server name the client presents: the URL's host text (or the
/// placeholder) without the brackets around an IPv6 address.
pub open spec fn spec_server_name(host: Option<Seq<char>>) -> Seq<char> {
    let h = match host {
        Some(h) => h,
        None => placeholder_server_name(),
    };
    trim_end(trim_start(h, '['), ']')
}

/// Where and how the client connects.
#[derive(Clone, Debug)]
pub struct ConnectionTarget {
    /// The server's address.
    pub remote: SockAddr,
    /// The server name for TLS.
    pub server_name: String,
    /// The local address to bind to.
    pub bind: SockAddr,
}

/// The unspecified address of the family that `v6` selects, with port 0.
pub open spec fn spec_unspecified(v6: bool) -> SockAddr {
    if v6 {
        SockAddr::V6 { ip: 0, port: 0, flowinfo: 0, scope_id: 0 }
    } else {
        SockAddr::V4 { ip: 0, port: 0 }
    }
}

/// The local address to bind to: the one given, else the unspecified address
/// of the server address's family, port 0.
pub fn bind_address(bind_addr: Option<SockAddr>, remote: &SockAddr) -> (b: SockAddr)
    ensures
        b == match bind_addr {
            Some(l) => l,
            None => spec_unspecified(*remote is V6),
        },
{
    match bind_addr {
        Some(l) => l,
        None => {
            if remote.is_ipv6() {
                SockAddr::V6 { ip: 0, port: 0, flowinfo: 0, scope_id: 0 }
            } else {
                SockAddr::V4 { ip: 0, port: 0 }
            }
        },
    }
}

/// The connection target once the server's host has resolved to `resolved`:
/// the first resolved address, the server name from the URL and the bind
/// address.
pub fn connection_target(opt: &Opt, resolved: &Vec<SockAddr>) -> (t: ConnectionTarget)
    requires
        resolved.len() > 0,
    ensures
        t.remote == resolved[0],
        t.server_name@ == spec_server_name(opt_view(opt.url.host)),
        t.bind == match opt.bind_addr {
            Some(l) => l,
            None => spec_unspecified(resolved[0] is V6),
        },
{
    let remote = resolved[0];
    let server_name = match &opt.url.host {
        Some(h) => trim_both(h.as_str(), '[', ']'),
        None => trim_both("THIS_HOSTNAME_SHOULD_NOT_BE_USED", '[', ']'),
    };
    let bind = bind_address(opt.bind_addr, &remote);
    ConnectionTarget { remote, server_name, bind }
}

} // verus!
