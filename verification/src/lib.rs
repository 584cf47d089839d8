//! A harness that drives TLS connections of different backends over a simulated
//! in-memory network, so that handshakes, transfers and memory use can be measured
//! under identical conditions.

pub mod config;
pub mod connection;
pub mod error;
pub mod memory;
pub mod pair;
pub mod s2n_tls;
pub mod text;
pub mod transport;
pub mod version;

pub use crate::config::{CipherSuite, CryptoConfig, ECGroup, HandshakeType, Mode, PemType, SigType};
pub use crate::connection::TlsConnection;
pub use crate::error::Error;
pub use crate::pair::TlsConnPair;
pub use crate::s2n_tls::{S2NConfig, S2NConnection};
pub use crate::transport::{ConnectedBuffer, Network, WouldBlock};
pub use crate::version::openssl_version_str;
