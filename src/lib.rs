//! A ping/pong request-response protocol over a multiplexed, stream-oriented
//! transport connection, written as verified state machines.
//!
//! The transport performs the I/O; the machines here decide, for every event it
//! reports, what happens next, and which exchanges are counted in the shared
//! metrics.
pub mod args;
pub mod error;
pub mod initiator;
pub mod metrics;
pub mod ping;
pub mod responder;
pub mod wire;

pub use error::PingError;
pub use metrics::Metrics;
pub use ping::Ping;
pub use wire::ALPN;
