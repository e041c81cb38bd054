//! Client-side protocol engine for a family of programmable robotics hubs
//! reachable over a Bluetooth Low Energy transport.
//!
//! The library covers the self-synchronizing framing codec, the typed message
//! model (requests that serialize, responses and notifications that parse),
//! the chunked and checksummed payload transfer, and the session state that
//! correlates requests to responses while demultiplexing unsolicited
//! notifications. The transport itself (device discovery, connecting,
//! writing, receiving raw fragments) is left to the surrounding application.

pub mod checksum;
pub mod codec;
pub mod connection;
pub mod error;
