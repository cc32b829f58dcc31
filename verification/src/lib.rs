//! Connection setup for an LND node: certificate pinning, macaroon
//! credentials, address validation and the order in which the steps of a
//! connection attempt are taken.
//!
//! The crate holds the decisions; the files are read and the sockets opened
//! by the caller, which hands the outcomes back as plain values.

pub mod address;
pub mod channel;
pub mod client;
pub mod connect;
pub mod error;
pub mod interceptor;
pub mod macaroon;
pub mod text;
pub mod tls;

pub use client::Client;
pub use connect::{connect, unreliable_connect_from_memory};
pub use error::LndConnectError;
pub use interceptor::MacaroonInterceptor;
