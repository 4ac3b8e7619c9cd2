//! The ways a DCP frame can be refused, and the device-level errors.

use vstd::prelude::*;

verus! {

/// Why a frame could not be parsed.
#[derive(Debug, Clone, Copy, PartialEq, Eq, Structural)]
pub enum ParseDcpError {
    /// The frame is shorter than its Ethernet framing.
    ShortFrame,
    /// The EtherType is not PROFINET.
    NotProfinet,
    /// The FrameID is none of the DCP frame IDs.
    FrameIdError,
    /// The DCP header is malformed.
    HeaderError(ParseDcpHeaderError),
    /// One of the blocks is malformed, or the block chain is.
    BlockError(ParseDcpBlockError),
}

/// Why a DCP header could not be parsed.
#[derive(Debug, Clone, Copy, PartialEq, Eq, Structural)]
pub enum ParseDcpHeaderError {
    InvalidHeaderLength,
    InvalidFrameID,
    InvalidServiceID,
    InvalidServiceType,
}

/// Why a DCP block could not be parsed.
#[derive(Debug, Clone, Copy, PartialEq, Eq, Structural)]
pub enum ParseDcpBlockError {
    /// The option code is not registered.
    InvalidBlockOption,
    InvalidIPSuboption,
    InvalidDevicePropertySuboption,
    /// A station name or vendor string longer than its capacity.
    InvalidDevicePropertyBlock,
    InvalidDHCPPropertySuboption,
    InvalidControlSuboption,
    InvalidDeviceInitiativeSuboption,
    InvalidNMEDomainSuboption,
    InvalidManufacturerSpecificSuboption,
    InvalidAllSuboption,
    InvalidDeviceRole,
    InvalidIpParameterBlockInfo,
    /// The block is shorter than its header, its declared length or its fields.
    ShortBlock,
    /// A registered option that this device does not handle.
    UnsupportedOption,
    /// A block reaches past the data length of the frame, or past 65535 bytes.
    BlockLengthOverflow,
    /// More blocks than a frame may hold.
    TooManyBlocks,
}

/// Errors of the device's receive and schedule path.
#[derive(Debug, Clone, Copy, PartialEq, Eq, Structural)]
pub enum Error {
    /// The received frame was refused by the parser.
    DcpError(ParseDcpError),
    /// The outgoing queue had no free slot; the response is dropped.
    QueueFull,
    /// The response does not fit the outgoing buffer; it is dropped.
    ResponseTooLong,
}

} // verus!
