//! Verified decision logic of an SSH-over-QUIC proxy: command-line values,
//! addresses, proxy routing, transport settings, relay steps and logging.

pub mod addr;
pub mod client;
pub mod logging;
pub mod mtu;
pub mod proxy;
pub mod relay;
pub mod server;
pub mod text;
pub mod transport;
