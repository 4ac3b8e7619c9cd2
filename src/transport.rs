//! The interface of the Ethernet driver that carries DCP frames: a
//! non-blocking receive and a non-blocking send into a driver buffer.

use vstd::prelude::*;

verus! {

/// A driver's tag for one packet.
#[derive(Debug, Clone, Copy, PartialEq, Eq)]
pub struct PacketId(pub u32);

/// Why no frame was received.
#[derive(Debug, Clone, Copy, PartialEq, Eq)]
pub enum RxError {
    /// The received packet was truncated.
    Truncated,
    /// The DMA reported an error.
    DmaError,
    /// No frame is waiting; receiving would block.
    WouldBlock,
}

/// Why a frame could not be sent.
#[derive(Debug, Clone, Copy, PartialEq, Eq)]
pub enum TxError {
    /// The transmit ring is full.
    WouldBlock,
}

/// An Ethernet driver, implemented for the device's DMA.
pub trait EthernetDMA {
    /// The next received frame, without waiting.
    fn recv_next(&mut self, packet_id: Option<PacketId>) -> Result<[u8; 1024], RxError>;

    /// Hands a frame of `length` bytes to the driver; `f` fills the driver's buffer.
    fn send<F>(&mut self, length: usize, packet_id: Option<PacketId>, f: F) -> Result<(), TxError>
        where
            F: FnOnce(&mut [u8]),
    ;
}

} // verus!
