//! The Ethernet framing of DCP: addresses, optional 802.1Q tag, EtherType
//! and FrameID in front of the DCP payload.

use crate::address::EthernetAddress;
use crate::bytes::{be16_at, read_u16};
use vstd::prelude::*;

verus! {

/// EtherType of PROFINET.
pub const ETHER_TYPE_PROFINET: u16 = 0x8892;

/// EtherType (TPID) of an 802.1Q VLAN tag.
pub const ETHER_TYPE_VLAN: u16 = 0x8100;

/// The EtherTypes the device tells apart.
#[derive(Debug, Clone, Copy, PartialEq, Eq, Structural)]
pub enum EthType {
    VLAN,
    Profinet,
    Other,
}

impl EthType {
    pub open spec fn spec_from(v: u16) -> Self {
        if v == ETHER_TYPE_VLAN {
            EthType::VLAN
        } else if v == ETHER_TYPE_PROFINET {
            EthType::Profinet
        } else {
            EthType::Other
        }
    }

    /// Decodes an EtherType; every value has a variant.
    pub fn from_u16(v: u16) -> (r: Self)
        ensures
            r == Self::spec_from(v),
    {
        if v == ETHER_TYPE_VLAN {
            EthType::VLAN
        } else if v == ETHER_TYPE_PROFINET {
            EthType::Profinet
        } else {
            EthType::Other
        }
    }
}

/// The DCP frame IDs.
#[derive(Debug, Clone, Copy, PartialEq, Eq, Structural)]
pub enum DcpFrameId {
    Hello,
    GetSet,
    Request,
    Response,
}

impl DcpFrameId {
    pub open spec fn spec_from(v: u16) -> Option<Self> {
        if v == 0xfefc {
            Some(DcpFrameId::Hello)
        } else if v == 0xfefd {
            Some(DcpFrameId::GetSet)
        } else if v == 0xfefe {
            Some(DcpFrameId::Request)
        } else if v == 0xfeff {
            Some(DcpFrameId::Response)
        } else {
            None
        }
    }

    pub open spec fn spec_value(self) -> u16 {
        match self {
            DcpFrameId::Hello => 0xfefc,
            DcpFrameId::GetSet => 0xfefd,
            DcpFrameId::Request => 0xfefe,
            DcpFrameId::Response => 0xfeff,
        }
    }

    /// Decodes a FrameID; `None` when it is not one of DCP's.
    pub fn from_u16(v: u16) -> (r: Option<Self>)
        ensures
            r == Self::spec_from(v),
    {
        if v == 0xfefc {
            Some(DcpFrameId::Hello)
        } else if v == 0xfefd {
            Some(DcpFrameId::GetSet)
        } else if v == 0xfefe {
            Some(DcpFrameId::Request)
        } else if v == 0xfeff {
            Some(DcpFrameId::Response)
        } else {
            None
        }
    }

    /// The FrameID value; it decodes back to the variant.
    pub fn as_u16(&self) -> (r: u16)
        ensures
            r == self.spec_value(),
            Self::spec_from(r) == Some(*self),
    {
        match self {
            DcpFrameId::Hello => 0xfefc,
            DcpFrameId::GetSet => 0xfefd,
            DcpFrameId::Request => 0xfefe,
            DcpFrameId::Response => 0xfeff,
        }
    }
}

/// Whether the raw frame `s` carries a VLAN tag.
pub open spec fn spec_is_vlan(s: Seq<u8>) -> bool {
    s.len() >= 14 && be16_at(s, 12) == ETHER_TYPE_VLAN
}

/// Offset of the DCP header in a raw frame.
pub open spec fn spec_dcp_start(s: Seq<u8>) -> int {
    if spec_is_vlan(s) {
        20
    } else {
        16
    }
}

/// A view over a raw Ethernet frame that may carry DCP.
pub struct DCPFrame<'a> {
    pub buffer: &'a [u8],
    pub is_vlan: bool,
}

impl<'a> DCPFrame<'a> {
    /// The VLAN flag agrees with the bytes.
    pub open spec fn wf(&self) -> bool {
        self.is_vlan == spec_is_vlan(self.buffer@)
    }

    /// A view that takes the frame as untagged.
    pub fn new_unchecked(buffer: &'a [u8]) -> (r: Self)
        ensures
            r.buffer@ == buffer@,
            !r.is_vlan,
    {
        Self { buffer, is_vlan: false }
    }

    /// A view that has looked for a VLAN tag.
    pub fn new_checked(buffer: &'a [u8]) -> (r: Self)
        ensures
            r.buffer@ == buffer@,
            r.wf(),
    {
        let is_vlan = buffer.len() >= 14 && read_u16(buffer, 12) == ETHER_TYPE_VLAN;
        Self { buffer, is_vlan }
    }

    /// Whether the frame carries a VLAN tag.
    pub fn is_vlan(&self) -> (r: bool)
        ensures
            r == self.is_vlan,
    {
        self.is_vlan
    }

    /// Offset of the DCP header.
    pub fn dcp_start(&self) -> (r: usize)
        ensures
            r == if self.is_vlan {
                20usize
            } else {
                16usize
            },
    {
        if self.is_vlan {
            20
        } else {
            16
        }
    }

    pub fn destination(&self) -> (r: EthernetAddress)
        requires
            self.buffer@.len() >= 6,
        ensures
            r.0@ == self.buffer@.take(6),
    {
        EthernetAddress::from_bytes(vstd::slice::slice_subrange(self.buffer, 0, 6))
    }

    pub fn source(&self) -> (r: EthernetAddress)
        requires
            self.buffer@.len() >= 12,
        ensures
            r.0@ == self.buffer@.subrange(6, 12),
    {
        EthernetAddress::from_bytes(vstd::slice::slice_subrange(self.buffer, 6, 12))
    }

    /// The EtherType after the addresses and the VLAN tag, if any.
    pub fn eth_type(&self) -> (r: EthType)
        requires
            self.buffer@.len() >= self.dcp_start_spec() - 2,
        ensures
            r == EthType::spec_from(be16_at(self.buffer@, self.dcp_start_spec() - 4)),
    {
        let at = self.dcp_start() - 4;
        EthType::from_u16(read_u16(self.buffer, at))
    }

    pub open spec fn dcp_start_spec(&self) -> int {
        if self.is_vlan {
            20
        } else {
            16
        }
    }

    /// The raw FrameID.
    pub fn frame_id_u16(&self) -> (r: u16)
        requires
            self.buffer@.len() >= self.dcp_start_spec(),
        ensures
            r == be16_at(self.buffer@, self.dcp_start_spec() - 2),
    {
        let at = self.dcp_start() - 2;
        read_u16(self.buffer, at)
    }

    /// Whether the EtherType is PROFINET.
    pub fn is_profinet_dcp(&self) -> (r: bool)
        requires
            self.buffer@.len() >= self.dcp_start_spec() - 2,
        ensures
            r == (be16_at(self.buffer@, self.dcp_start_spec() - 4) == ETHER_TYPE_PROFINET),
    {
        let t = self.eth_type();
        match t {
            EthType::Profinet => true,
            _ => false,
        }
    }

    /// The DCP payload: header and blocks.
    pub fn payload(&self) -> (r: &'a [u8])
        requires
            self.buffer@.len() >= self.dcp_start_spec(),
        ensures
            r@ == self.buffer@.skip(self.dcp_start_spec()),
    {
        vstd::slice::slice_subrange(self.buffer, self.dcp_start(), self.buffer.len())
    }
}

} // verus!
