//! Command transport, application frame protocol and network bring-up logic
//! for a LoRaWAN end-node that drives a radio co-processor over AT commands.

pub mod buffers;
pub mod bytes;
pub mod config;
pub mod downlink;
pub mod join;
pub mod lorawan;
pub mod proto;
pub mod provision;
pub mod reply;
pub mod serial;
pub mod transport;
pub mod utils;
