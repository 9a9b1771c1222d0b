//! Verified core of an SNI probe: it classifies the outcome of a TLS handshake
//! made with a chosen server name, and reduces the outcomes of many probes to a
//! summary.  The network I/O itself lives outside this crate.
pub mod error;
pub mod laws;
pub mod probe;
pub mod text;
pub mod tls;
pub mod types;
pub mod utils;
