//! A framed request/response protocol over TCP and TLS, as verified state machines.
//!
//! Every network operation is a machine that names the next piece of I/O to perform
//! and is advanced with what came of it. The machines hold all decisions: framing,
//! limits, statuses, timeouts, retries and keep-alive pings. A driver performs the I/O.

pub mod be_bytes;
pub mod client_tl;
pub mod client_tls;
pub mod connect;
pub mod conversation;
pub mod disconnect;
pub mod duration;
pub mod error;
pub mod exchange;
pub mod message;
pub mod ping;
pub mod probes;
pub mod protocol_structs;
pub mod request_header;
pub mod response_header;
pub mod server;
pub mod server_tl;
pub mod server_tls;
pub mod session;
pub mod sharing;
pub mod text;
pub mod timeout_config;
pub mod transport;

pub use client_tl::ClientTL;
pub use client_tls::ClientTLS;
pub use duration::Duration;
pub use error::{Error, Result};
pub use server_tl::ServerTL;
pub use server_tls::ServerTLS;
pub use timeout_config::TimeoutConfig;
