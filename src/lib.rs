//! Discovery and Configuration Protocol (DCP) core for a PROFINET device:
//! a bounded, allocation-free codec for DCP frames, a request dispatcher
//! over the device identity, and the delayed-response outgoing queue.
//!
//! - [`bytes`]: big-endian fields over caller buffers.
//! - [`block_options`]: the registered option and suboption codes.
//! - [`block`], [`header`], [`frame`], [`dcp`]: the block, header, framing
//!   and whole-frame codecs, each with a parser and a builder.
//! - [`device`], [`pnet`]: the identity, the outgoing queue and the dispatcher.
//! - [`laws`]: round trip, length, padding, BlockInfo and bounded-parse properties.
//! - [`transport`]: the interface of the Ethernet driver.

pub mod address;
pub mod block;
pub mod block_options;
pub mod bytes;
pub mod dcp;
pub mod device;
pub mod error;
pub mod frame;
pub mod header;
pub mod laws;
pub mod pnet;
pub mod transport;

pub use address::{EthernetAddress, Ipv4Address};
pub use error::{Error, ParseDcpBlockError, ParseDcpError, ParseDcpHeaderError};
