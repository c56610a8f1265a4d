//! Verified core of an I2PControl metrics exporter: the JSON-RPC envelope
//! codec, the credential store's singleflight refresh protocol, the
//! deadline-bounded fetch state machine, the scrape-timeout resolver and the
//! snapshot model. Network and HTTP plumbing live outside the library and
//! only hand plain values in and out.

pub mod client;
pub mod config;
pub mod json;
pub mod jsonio;
pub mod numtext;
pub mod rpc;
pub mod server;
pub mod timeout;
pub mod transport;
pub mod types;
