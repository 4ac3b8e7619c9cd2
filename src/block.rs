//! DCP blocks: the typed bodies, their wire encoding and their parser.
//!
//! A block on the wire is `option, suboption, declared length L (u16)`
//! followed by `L` bytes; for every block but the all-selector those bytes
//! are a two-byte BlockInfo word and the payload. A block whose `4 + L` is
//! odd is followed by one zero pad byte inside its frame.

use crate::address::{EthernetAddress, Ipv4Address};
use crate::block_options::{
    BlockOption, DevicePropertiesSuboption, DeviceRole, IpSuboption,
};
use crate::bytes::{
    be16_at, lemma_splice_twice, put_u8, read_u16, splice, u16_bytes, write_u16,
};
use crate::error::ParseDcpBlockError;
use vstd::prelude::*;
use vstd::string::StringSliceAdditionalSpecFns;

verus! {

/// Capacity of a device vendor string.
pub const MAX_DEVICE_VENDOR_LENGTH: usize = 255;

/// Capacity of a station name.
pub const MAX_NAME_OF_STATION_LENGTH: usize = 240;

/// How the IP parameters of a device came to be.
#[derive(Debug, Clone, Copy, PartialEq, Eq, Structural)]
pub enum IpParameterBlockInfo {
    IpNotSet,
    IpSetViaSetRequest,
    IpSetViaDhcp,
}

impl IpParameterBlockInfo {
    /// The variant that stands for BlockInfo word `v`, if any.
    pub open spec fn spec_from(v: u16) -> Option<Self> {
        if v == 0 {
            Some(IpParameterBlockInfo::IpNotSet)
        } else if v == 1 {
            Some(IpParameterBlockInfo::IpSetViaSetRequest)
        } else if v == 2 {
            Some(IpParameterBlockInfo::IpSetViaDhcp)
        } else {
            None
        }
    }

    /// The BlockInfo word of the variant.
    pub open spec fn spec_value(self) -> u16 {
        match self {
            IpParameterBlockInfo::IpNotSet => 0,
            IpParameterBlockInfo::IpSetViaSetRequest => 1,
            IpParameterBlockInfo::IpSetViaDhcp => 2,
        }
    }

    /// Decodes a BlockInfo word; `None` when no variant has it.
    pub fn from_u16(v: u16) -> (r: Option<Self>)
        ensures
            r == Self::spec_from(v),
    {
        if v == 0 {
            Some(IpParameterBlockInfo::IpNotSet)
        } else if v == 1 {
            Some(IpParameterBlockInfo::IpSetViaSetRequest)
        } else if v == 2 {
            Some(IpParameterBlockInfo::IpSetViaDhcp)
        } else {
            None
        }
    }

    /// The BlockInfo word of the variant; it decodes back to the variant.
    pub fn as_u16(&self) -> (r: u16)
        ensures
            r == self.spec_value(),
            Self::spec_from(r) == Some(*self),
    {
        match self {
            IpParameterBlockInfo::IpNotSet => 0,
            IpParameterBlockInfo::IpSetViaSetRequest => 1,
            IpParameterBlockInfo::IpSetViaDhcp => 2,
        }
    }
}

/// A block body as a mathematical value: what a [`Block`] holds, with
/// octet strings and addresses as sequences.
pub enum BlockModel {
    MacAddress(Seq<u8>),
    IpParameter(Seq<u8>, Seq<u8>, Seq<u8>, IpParameterBlockInfo),
    FullIpSuite(Seq<u8>, Seq<u8>, Seq<u8>, Seq<u8>, IpParameterBlockInfo),
    DeviceVendor(Seq<u8>),
    NameOfStation(Seq<u8>),
    DeviceId(u16, u16),
    DeviceRole(DeviceRole),
    DeviceOptions,
    AliasName,
    DeviceInstance(u8, u8),
    OemDeviceId,
    StandardGateway,
    RsiProperties,
    All,
}

/// `n` rounded up to the next even number.
pub open spec fn padded(n: int) -> int {
    if n % 2 == 1 {
        n + 1
    } else {
        n
    }
}

impl BlockModel {
    /// Field sizes within their bounds.
    pub open spec fn wf(self) -> bool {
        match self {
            BlockModel::MacAddress(a) => a.len() == 6,
            BlockModel::IpParameter(ip, mask, gw, _) => ip.len() == 4 && mask.len() == 4
                && gw.len() == 4,
            BlockModel::FullIpSuite(ip, mask, gw, dns, _) => ip.len() == 4 && mask.len() == 4
                && gw.len() == 4 && dns.len() == 4,
            BlockModel::DeviceVendor(v) => v.len() <= MAX_DEVICE_VENDOR_LENGTH,
            BlockModel::NameOfStation(n) => n.len() <= MAX_NAME_OF_STATION_LENGTH,
            _ => true,
        }
    }

    pub open spec fn option(self) -> u8 {
        match self {
            BlockModel::MacAddress(..) | BlockModel::IpParameter(..) | BlockModel::FullIpSuite(
                ..,
            ) => 1,
            BlockModel::All => 0xff,
            _ => 2,
        }
    }

    pub open spec fn suboption(self) -> u8 {
        match self {
            BlockModel::MacAddress(..) => 1,
            BlockModel::IpParameter(..) => 2,
            BlockModel::FullIpSuite(..) => 3,
            BlockModel::DeviceVendor(..) => 1,
            BlockModel::NameOfStation(..) => 2,
            BlockModel::DeviceId(..) => 3,
            BlockModel::DeviceRole(..) => 4,
            BlockModel::DeviceOptions => 5,
            BlockModel::AliasName => 6,
            BlockModel::DeviceInstance(..) => 7,
            BlockModel::OemDeviceId => 8,
            BlockModel::StandardGateway => 9,
            BlockModel::RsiProperties => 10,
            BlockModel::All => 0xff,
        }
    }

    /// The BlockInfo word: the IP origin for the IP parameter blocks, else 0.
    pub open spec fn info(self) -> u16 {
        match self {
            BlockModel::IpParameter(_, _, _, i) => i.spec_value(),
            BlockModel::FullIpSuite(_, _, _, _, i) => i.spec_value(),
            _ => 0,
        }
    }

    /// The payload that follows the BlockInfo word.
    pub open spec fn payload(self) -> Seq<u8> {
        match self {
            BlockModel::MacAddress(a) => a,
            BlockModel::IpParameter(ip, mask, gw, _) => ip + mask + gw,
            BlockModel::FullIpSuite(ip, mask, gw, dns, _) => ip + mask + gw + dns,
            BlockModel::DeviceVendor(v) => v,
            BlockModel::NameOfStation(n) => n,
            BlockModel::DeviceId(vendor, device) => u16_bytes(vendor) + u16_bytes(device),
            BlockModel::DeviceRole(r) => seq![r.spec_value(), 0u8],
            BlockModel::DeviceOptions => seq![2u8, 7u8],
            BlockModel::DeviceInstance(high, low) => seq![high, low],
            BlockModel::All => Seq::empty(),
            _ => seq![0u8],
        }
    }

    /// The declared length L written in the block header.
    pub open spec fn declared_len(self) -> int {
        match self {
            BlockModel::All => 0,
            _ => self.payload().len() + 2int,
        }
    }

    /// The block's bytes, header included, pad byte excluded.
    pub open spec fn bytes(self) -> Seq<u8> {
        let head = seq![self.option(), self.suboption()] + u16_bytes(self.declared_len() as u16);
        match self {
            BlockModel::All => head,
            _ => head + u16_bytes(self.info()) + self.payload(),
        }
    }

    /// The length the block takes in a frame, pad byte included.
    pub open spec fn wire_len(self) -> int {
        padded(4 + self.declared_len())
    }

    /// The block's bytes as they stand in a frame, pad byte included.
    pub open spec fn wire_bytes(self) -> Seq<u8> {
        if (4 + self.declared_len()) % 2 == 1 {
            self.bytes() + seq![0u8]
        } else {
            self.bytes()
        }
    }
}

/// A parsed or built block with the length it takes in a frame.
pub struct DcpBlockView {
    pub block: BlockModel,
    pub block_length: u16,
}

/// The body of an IP block, from its suboption, BlockInfo word and payload.
pub open spec fn parse_ip_body(sub: IpSuboption, info: u16, p: Seq<u8>) -> Result<
    BlockModel,
    ParseDcpBlockError,
> {
    match sub {
        IpSuboption::MacAddress => if p.len() < 6 {
            Err(ParseDcpBlockError::ShortBlock)
        } else {
            Ok(BlockModel::MacAddress(p.take(6)))
        },
        IpSuboption::IpParameter => if p.len() < 12 {
            Err(ParseDcpBlockError::ShortBlock)
        } else {
            match IpParameterBlockInfo::spec_from(info) {
                None => Err(ParseDcpBlockError::InvalidIpParameterBlockInfo),
                Some(i) => Ok(
                    BlockModel::IpParameter(
                        p.subrange(0, 4),
                        p.subrange(4, 8),
                        p.subrange(8, 12),
                        i,
                    ),
                ),
            }
        },
        IpSuboption::FullIpSuite => if p.len() < 16 {
            Err(ParseDcpBlockError::ShortBlock)
        } else {
            match IpParameterBlockInfo::spec_from(info) {
                None => Err(ParseDcpBlockError::InvalidIpParameterBlockInfo),
                Some(i) => Ok(
                    BlockModel::FullIpSuite(
                        p.subrange(0, 4),
                        p.subrange(4, 8),
                        p.subrange(8, 12),
                        p.subrange(12, 16),
                        i,
                    ),
                ),
            }
        },
    }
}

/// The body of a device properties block, from its suboption and payload.
pub open spec fn parse_properties_body(sub: DevicePropertiesSuboption, p: Seq<u8>) -> Result<
    BlockModel,
    ParseDcpBlockError,
> {
    match sub {
        DevicePropertiesSuboption::DeviceVendor => if p.len() > MAX_DEVICE_VENDOR_LENGTH {
            Err(ParseDcpBlockError::InvalidDevicePropertyBlock)
        } else {
            Ok(BlockModel::DeviceVendor(p))
        },
        DevicePropertiesSuboption::NameOfStation => if p.len() > MAX_NAME_OF_STATION_LENGTH {
            Err(ParseDcpBlockError::InvalidDevicePropertyBlock)
        } else {
            Ok(BlockModel::NameOfStation(p))
        },
        DevicePropertiesSuboption::DeviceId => if p.len() < 4 {
            Err(ParseDcpBlockError::ShortBlock)
        } else {
            Ok(BlockModel::DeviceId(be16_at(p, 0), be16_at(p, 2)))
        },
        DevicePropertiesSuboption::DeviceRole => if p.len() < 1 {
            Err(ParseDcpBlockError::ShortBlock)
        } else {
            match DeviceRole::spec_from(p[0]) {
                None => Err(ParseDcpBlockError::InvalidDeviceRole),
                Some(r) => Ok(BlockModel::DeviceRole(r)),
            }
        },
        DevicePropertiesSuboption::DeviceOptions => Ok(BlockModel::DeviceOptions),
        DevicePropertiesSuboption::AliasName => Ok(BlockModel::AliasName),
        DevicePropertiesSuboption::DeviceInstance => if p.len() < 2 {
            Err(ParseDcpBlockError::ShortBlock)
        } else {
            Ok(BlockModel::DeviceInstance(p[0], p[1]))
        },
        DevicePropertiesSuboption::OemDeviceId => Ok(BlockModel::OemDeviceId),
        DevicePropertiesSuboption::StandardGateway => Ok(BlockModel::StandardGateway),
        DevicePropertiesSuboption::RsiProperties => Ok(BlockModel::RsiProperties),
    }
}

/// What parsing the bytes `s` of one block gives (`s` without its pad byte).
pub open spec fn spec_parse_block(s: Seq<u8>) -> Result<DcpBlockView, ParseDcpBlockError> {
    if s.len() < 4 {
        Err(ParseDcpBlockError::ShortBlock)
    } else {
        let declared = be16_at(s, 2) as int;
        let total = padded(4 + declared);
        let sized = if declared < 2 || s.len() < 4 + declared {
            Err(ParseDcpBlockError::ShortBlock)
        } else if total > 0xffff {
            Err(ParseDcpBlockError::BlockLengthOverflow)
        } else {
            Ok(())
        };
        let with_len = |r: Result<BlockModel, ParseDcpBlockError>|
            match r {
                Ok(m) => Ok(DcpBlockView { block: m, block_length: total as u16 }),
                Err(e) => Err(e),
            };
        match BlockOption::spec_from(s[0]) {
            None => Err(ParseDcpBlockError::InvalidBlockOption),
            Some(BlockOption::All) => if s[1] != 0xff {
                Err(ParseDcpBlockError::InvalidAllSuboption)
            } else if total > 0xffff {
                Err(ParseDcpBlockError::BlockLengthOverflow)
            } else {
                Ok(DcpBlockView { block: BlockModel::All, block_length: total as u16 })
            },
            Some(BlockOption::IP) => match IpSuboption::spec_from(s[1]) {
                None => Err(ParseDcpBlockError::InvalidIPSuboption),
                Some(sub) => match sized {
                    Err(e) => Err(e),
                    Ok(_) => with_len(
                        parse_ip_body(sub, be16_at(s, 4), s.subrange(6, 4 + declared)),
                    ),
                },
            },
            Some(BlockOption::DeviceProperties) => match DevicePropertiesSuboption::spec_from(
                s[1],
            ) {
                None => Err(ParseDcpBlockError::InvalidDevicePropertySuboption),
                Some(sub) => match sized {
                    Err(e) => Err(e),
                    Ok(_) => with_len(parse_properties_body(sub, s.subrange(6, 4 + declared))),
                },
            },
            Some(_) => Err(ParseDcpBlockError::UnsupportedOption),
        }
    }
}


/// Copies `src` into `buf[at..at + src.len()]`, leaving the other bytes alone.
pub(crate) fn copy_bytes(buf: &mut [u8], at: usize, src: &[u8])
    requires
        at + src@.len() <= old(buf)@.len(),
    ensures
        final(buf)@ == splice(old(buf)@, at as int, src@),
{
    let blen = buf.len();
    let mut i: usize = 0;
    while i < src.len()
        invariant
            blen == buf@.len(),
            buf@.len() == old(buf)@.len(),
            at + src@.len() <= buf@.len(),
            i <= src@.len(),
            buf@ == splice(old(buf)@, at as int, src@.take(i as int)),
        decreases src@.len() - i,
    {
        buf[at + i] = src[i];
        assert(buf@ =~= splice(old(buf)@, at as int, src@.take(i + 1)));
        i = i + 1;
    }
    assert(src@.take(src@.len() as int) =~= src@);
}

/// A view over the raw bytes of one block.
pub struct DCPBlockFrame<'a> {
    pub buffer: &'a [u8],
}

impl<'a> DCPBlockFrame<'a> {
    pub fn new_unchecked(buffer: &'a [u8]) -> (r: DCPBlockFrame<'a>)
        ensures
            r.buffer@ == buffer@,
    {
        DCPBlockFrame { buffer }
    }

    /// The option byte.
    pub fn option(&self) -> (r: u8)
        requires
            self.buffer@.len() >= 1,
        ensures
            r == self.buffer@[0],
    {
        self.buffer[0]
    }

    /// The suboption byte.
    pub fn suboption(&self) -> (r: u8)
        requires
            self.buffer@.len() >= 2,
        ensures
            r == self.buffer@[1],
    {
        self.buffer[1]
    }

    /// The declared length L.
    pub fn block_length(&self) -> (r: u16)
        requires
            self.buffer@.len() >= 4,
        ensures
            r == be16_at(self.buffer@, 2),
    {
        read_u16(self.buffer, 2)
    }

    /// The BlockInfo word.
    pub fn block_info(&self) -> (r: u16)
        requires
            self.buffer@.len() >= 6,
        ensures
            r == be16_at(self.buffer@, 4),
    {
        read_u16(self.buffer, 4)
    }

    /// The bytes after the BlockInfo word.
    pub fn payload(&self) -> (r: &'a [u8])
        requires
            self.buffer@.len() >= 6,
        ensures
            r@ == self.buffer@.skip(6),
    {
        vstd::slice::slice_subrange(self.buffer, 6, self.buffer.len())
    }
}

/// The MAC address block body.
#[derive(Debug, Clone, Copy, PartialEq, Eq)]
pub struct MacAddress {
    pub address: EthernetAddress,
}

/// The IP parameter block body.
#[derive(Debug, Clone, Copy, PartialEq, Eq)]
pub struct IpParameter {
    pub ip_address: Ipv4Address,
    pub subnet_mask: Ipv4Address,
    pub gateway: Ipv4Address,
    pub block_info: IpParameterBlockInfo,
}

/// The full IP suite block body.
#[derive(Debug, Clone, Copy, PartialEq, Eq)]
pub struct FullIpSuite {
    pub ip_address: Ipv4Address,
    pub subnet_mask: Ipv4Address,
    pub gateway: Ipv4Address,
    pub dns: Ipv4Address,
    pub block_info: IpParameterBlockInfo,
}

/// The bodies of the IP option.
#[derive(Debug, Clone, Copy, PartialEq, Eq)]
pub enum IpBlock {
    MacAddress(MacAddress),
    IpParameter(IpParameter),
    FullIpSuite(FullIpSuite),
}

/// The device vendor string: `length` octets in a fixed buffer.
#[derive(Debug, Clone, Copy, PartialEq, Eq)]
pub struct DeviceVendor {
    pub vendor: [u8; MAX_DEVICE_VENDOR_LENGTH],
    pub length: usize,
}

/// The station name: `length` octets in a fixed buffer.
#[derive(Debug, Clone, Copy, PartialEq, Eq)]
pub struct NameOfStation {
    pub name: [u8; MAX_NAME_OF_STATION_LENGTH],
    pub length: usize,
}

/// Vendor and device identifiers.
#[derive(Debug, Clone, Copy, PartialEq, Eq)]
pub struct DeviceId {
    pub vendor_id: u16,
    pub device_id: u16,
}

/// The device instance, high and low byte.
#[derive(Debug, Clone, Copy, PartialEq, Eq)]
pub struct DeviceInstance {
    pub high: u8,
    pub low: u8,
}

/// The bodies of the device properties option.
#[derive(Debug, Clone, Copy, PartialEq, Eq)]
pub enum DevicePropertiesBlock {
    DeviceVendor(DeviceVendor),
    NameOfStation(NameOfStation),
    DeviceId(DeviceId),
    DeviceRole(DeviceRole),
    DeviceOptions,
    AliasName,
    DeviceInstance(DeviceInstance),
    OemDeviceId,
    StandardGateway,
    RsiProperties,
}

/// A block body, by option group.
#[derive(Debug, Clone, Copy, PartialEq, Eq)]
pub enum Block {
    Ip(IpBlock),
    DeviceProperties(DevicePropertiesBlock),
    All,
}

/// A block with the length it takes in a frame, pad byte included.
#[derive(Debug, Clone, Copy, PartialEq, Eq)]
pub struct DcpBlock {
    pub block: Block,
    pub block_length: u16,
}

impl DeviceVendor {
    /// The length is within the capacity and the bytes past it are zero.
    pub open spec fn wf(&self) -> bool {
        &&& self.length <= MAX_DEVICE_VENDOR_LENGTH
        &&& forall|i: int| self.length <= i < MAX_DEVICE_VENDOR_LENGTH ==> self.vendor[i] == 0
    }

    /// The octets of the string.
    pub open spec fn spec_bytes(&self) -> Seq<u8> {
        self.vendor@.take(self.length as int)
    }

    /// A vendor string from its octets in a fixed buffer; bytes past `length` are cleared.
    pub fn new(vendor: [u8; MAX_DEVICE_VENDOR_LENGTH], length: usize) -> (r: Self)
        requires
            length <= MAX_DEVICE_VENDOR_LENGTH,
        ensures
            r.wf(),
            r.spec_bytes() == vendor@.take(length as int),
    {
        Self::parse_bytes(&vendor, length)
    }

    /// The first `data_size` bytes of `buffer` as a vendor string.
    pub fn parse_bytes(buffer: &[u8], data_size: usize) -> (r: Self)
        requires
            data_size <= MAX_DEVICE_VENDOR_LENGTH,
            data_size <= buffer@.len(),
        ensures
            r.wf(),
            r.spec_bytes() == buffer@.take(data_size as int),
    {
        let mut device_vendor = [0u8; MAX_DEVICE_VENDOR_LENGTH];
        let mut i: usize = 0;
        while i < data_size
            invariant
                data_size <= MAX_DEVICE_VENDOR_LENGTH,
                data_size <= buffer@.len(),
                i <= data_size,
                forall|j: int| 0 <= j < i ==> device_vendor[j] == buffer@[j],
                forall|j: int| i <= j < MAX_DEVICE_VENDOR_LENGTH ==> device_vendor[j] == 0,
            decreases data_size - i,
        {
            device_vendor[i] = buffer[i];
            i = i + 1;
        }
        let r = Self { vendor: device_vendor, length: data_size };
        assert(r.spec_bytes() =~= buffer@.take(data_size as int));
        r
    }

    /// The octets of `s` as a vendor string.
    pub fn from_str(s: &str) -> (r: Self)
        requires
            s.spec_bytes().len() <= MAX_DEVICE_VENDOR_LENGTH,
        ensures
            r.wf(),
            r.spec_bytes() == s.spec_bytes(),
    {
        let bytes = s.as_bytes();
        let r = Self::parse_bytes(bytes, bytes.len());
        assert(bytes@.take(bytes@.len() as int) =~= bytes@);
        r
    }

    /// The octets of the string.
    pub fn as_bytes(&self) -> (r: &[u8])
        requires
            self.length <= MAX_DEVICE_VENDOR_LENGTH,
        ensures
            r@ == self.spec_bytes(),
    {
        vstd::slice::slice_subrange(self.vendor.as_slice(), 0, self.length)
    }

    /// Writes the octets of the string at the front of `buffer`.
    pub fn encode_into(&self, buffer: &mut [u8])
        requires
            self.length <= MAX_DEVICE_VENDOR_LENGTH,
            self.length <= old(buffer).len(),
        ensures
            final(buffer)@ == splice(old(buffer)@, 0, self.spec_bytes()),
    {
        copy_bytes(buffer, 0, self.as_bytes());
    }

    /// The declared length of a block carrying this string.
    pub fn block_length(&self) -> (r: u16)
        requires
            self.length <= MAX_DEVICE_VENDOR_LENGTH,
        ensures
            r == self.length + 2,
    {
        self.length as u16 + 2
    }
}

impl NameOfStation {
    /// The length is within the capacity and the bytes past it are zero.
    pub open spec fn wf(&self) -> bool {
        &&& self.length <= MAX_NAME_OF_STATION_LENGTH
        &&& forall|i: int| self.length <= i < MAX_NAME_OF_STATION_LENGTH ==> self.name[i] == 0
    }

    /// The octets of the name.
    pub open spec fn spec_bytes(&self) -> Seq<u8> {
        self.name@.take(self.length as int)
    }

    /// A station name from its octets in a fixed buffer; bytes past `length` are cleared.
    pub fn new(name: [u8; MAX_NAME_OF_STATION_LENGTH], length: usize) -> (r: Self)
        requires
            length <= MAX_NAME_OF_STATION_LENGTH,
        ensures
            r.wf(),
            r.spec_bytes() == name@.take(length as int),
    {
        Self::parse_bytes(&name, length)
    }

    /// The first `data_size` bytes of `buffer` as a station name.
    pub fn parse_bytes(buffer: &[u8], data_size: usize) -> (r: Self)
        requires
            data_size <= MAX_NAME_OF_STATION_LENGTH,
            data_size <= buffer@.len(),
        ensures
            r.wf(),
            r.spec_bytes() == buffer@.take(data_size as int),
    {
        let mut name_of_station = [0u8; MAX_NAME_OF_STATION_LENGTH];
        let mut i: usize = 0;
        while i < data_size
            invariant
                data_size <= MAX_NAME_OF_STATION_LENGTH,
                data_size <= buffer@.len(),
                i <= data_size,
                forall|j: int| 0 <= j < i ==> name_of_station[j] == buffer@[j],
                forall|j: int| i <= j < MAX_NAME_OF_STATION_LENGTH ==> name_of_station[j] == 0,
            decreases data_size - i,
        {
            name_of_station[i] = buffer[i];
            i = i + 1;
        }
        let r = Self { name: name_of_station, length: data_size };
        assert(r.spec_bytes() =~= buffer@.take(data_size as int));
        r
    }

    /// The octets of `s` as a station name.
    pub fn from_str(s: &str) -> (r: Self)
        requires
            s.spec_bytes().len() <= MAX_NAME_OF_STATION_LENGTH,
        ensures
            r.wf(),
            r.spec_bytes() == s.spec_bytes(),
    {
        let bytes = s.as_bytes();
        let r = Self::parse_bytes(bytes, bytes.len());
        assert(bytes@.take(bytes@.len() as int) =~= bytes@);
        r
    }

    /// The octets of the name.
    pub fn as_bytes(&self) -> (r: &[u8])
        requires
            self.length <= MAX_NAME_OF_STATION_LENGTH,
        ensures
            r@ == self.spec_bytes(),
    {
        vstd::slice::slice_subrange(self.name.as_slice(), 0, self.length)
    }

    /// Writes the octets of the name at the front of `buffer`.
    pub fn encode_into(&self, buffer: &mut [u8])
        requires
            self.length <= MAX_NAME_OF_STATION_LENGTH,
            self.length <= old(buffer).len(),
        ensures
            final(buffer)@ == splice(old(buffer)@, 0, self.spec_bytes()),
    {
        copy_bytes(buffer, 0, self.as_bytes());
    }

    /// The declared length of a block carrying this name.
    pub fn block_length(&self) -> (r: u16)
        requires
            self.length <= MAX_NAME_OF_STATION_LENGTH,
        ensures
            r == self.length + 2,
    {
        self.length as u16 + 2
    }
}

impl DeviceId {
    /// Vendor and device identifiers from the first four bytes of `buffer`.
    pub fn parse_bytes(buffer: &[u8]) -> (r: Self)
        requires
            buffer@.len() >= 4,
        ensures
            r.vendor_id == be16_at(buffer@, 0),
            r.device_id == be16_at(buffer@, 2),
    {
        let vendor_id = read_u16(buffer, 0);
        let device_id = read_u16(buffer, 2);
        Self { vendor_id, device_id }
    }

    /// The four bytes of the identifiers, big-endian, vendor first.
    pub fn as_bytes(&self) -> (r: [u8; 4])
        ensures
            r@ == u16_bytes(self.vendor_id) + u16_bytes(self.device_id),
    {
        let mut r = [0u8; 4];
        self.encode_into(&mut r);
        assert(r@ =~= u16_bytes(self.vendor_id) + u16_bytes(self.device_id));
        r
    }

    /// Writes the identifiers at the front of `buffer`.
    pub fn encode_into(&self, buffer: &mut [u8])
        requires
            old(buffer)@.len() >= 4,
        ensures
            final(buffer)@ == splice(
                old(buffer)@,
                0,
                u16_bytes(self.vendor_id) + u16_bytes(self.device_id),
            ),
    {
        write_u16(buffer, 0, self.vendor_id);
        write_u16(buffer, 2, self.device_id);
        assert(buffer@ =~= splice(
            old(buffer)@,
            0,
            u16_bytes(self.vendor_id) + u16_bytes(self.device_id),
        ));
    }

    /// The declared length of a block carrying the identifiers.
    pub fn block_length(&self) -> (r: u16)
        ensures
            r == 6,
    {
        6
    }
}

impl DeviceInstance {
    /// The instance from the first two bytes of `buffer`.
    pub fn parse_bytes(buffer: &[u8]) -> (r: Self)
        requires
            buffer@.len() >= 2,
        ensures
            r.high == buffer@[0],
            r.low == buffer@[1],
    {
        Self { high: buffer[0], low: buffer[1] }
    }

    /// The two bytes of the instance, high first.
    pub fn as_bytes(&self) -> (r: [u8; 2])
        ensures
            r@ == seq![self.high, self.low],
    {
        let r = [self.high, self.low];
        assert(r@ =~= seq![self.high, self.low]);
        r
    }

    /// Writes the instance at the front of `buffer`.
    pub fn encode_into(&self, buffer: &mut [u8])
        requires
            old(buffer)@.len() >= 2,
        ensures
            final(buffer)@ == splice(old(buffer)@, 0, seq![self.high, self.low]),
    {
        buffer[0] = self.high;
        buffer[1] = self.low;
        assert(buffer@ =~= splice(old(buffer)@, 0, seq![self.high, self.low]));
    }

    /// The declared length of a block carrying the instance.
    pub fn block_length(&self) -> (r: u16)
        ensures
            r == 4,
    {
        4
    }
}

impl View for Block {
    type V = BlockModel;

    open spec fn view(&self) -> BlockModel {
        match *self {
            Block::Ip(IpBlock::MacAddress(m)) => BlockModel::MacAddress(m.address.0@),
            Block::Ip(IpBlock::IpParameter(p)) => BlockModel::IpParameter(
                p.ip_address.0@,
                p.subnet_mask.0@,
                p.gateway.0@,
                p.block_info,
            ),
            Block::Ip(IpBlock::FullIpSuite(s)) => BlockModel::FullIpSuite(
                s.ip_address.0@,
                s.subnet_mask.0@,
                s.gateway.0@,
                s.dns.0@,
                s.block_info,
            ),
            Block::DeviceProperties(dp) => match dp {
                DevicePropertiesBlock::DeviceVendor(v) => BlockModel::DeviceVendor(v.spec_bytes()),
                DevicePropertiesBlock::NameOfStation(n) => BlockModel::NameOfStation(
                    n.spec_bytes(),
                ),
                DevicePropertiesBlock::DeviceId(d) => BlockModel::DeviceId(d.vendor_id, d.device_id),
                DevicePropertiesBlock::DeviceRole(r) => BlockModel::DeviceRole(r),
                DevicePropertiesBlock::DeviceOptions => BlockModel::DeviceOptions,
                DevicePropertiesBlock::AliasName => BlockModel::AliasName,
                DevicePropertiesBlock::DeviceInstance(i) => BlockModel::DeviceInstance(i.high, i.low),
                DevicePropertiesBlock::OemDeviceId => BlockModel::OemDeviceId,
                DevicePropertiesBlock::StandardGateway => BlockModel::StandardGateway,
                DevicePropertiesBlock::RsiProperties => BlockModel::RsiProperties,
            },
            Block::All => BlockModel::All,
        }
    }
}

impl Block {
    /// Octet strings within their capacities, bytes past their lengths zero.
    pub open spec fn wf(&self) -> bool {
        match *self {
            Block::DeviceProperties(DevicePropertiesBlock::DeviceVendor(v)) => v.wf(),
            Block::DeviceProperties(DevicePropertiesBlock::NameOfStation(n)) => n.wf(),
            _ => true,
        }
    }
}

impl View for DcpBlock {
    type V = DcpBlockView;

    open spec fn view(&self) -> DcpBlockView {
        DcpBlockView { block: self.block@, block_length: self.block_length }
    }
}


/// The length in a frame of a block with declared length `declared`.
pub fn wire_length(declared: u16) -> (r: usize)
    ensures
        r == padded(4 + declared),
{
    let total = declared as usize + 4;
    if total % 2 == 1 {
        total + 1
    } else {
        total
    }
}

impl MacAddress {
    /// The address in the first six bytes of `buffer`.
    pub fn new(buffer: &[u8]) -> (r: Self)
        requires
            buffer@.len() >= 6,
        ensures
            r.address.0@ == buffer@.take(6),
    {
        Self { address: EthernetAddress::from_bytes(vstd::slice::slice_subrange(buffer, 0, 6)) }
    }
}

/// The IPv4 address at `buffer[at..at + 4]`.
fn address_at(buffer: &[u8], at: usize) -> (r: Ipv4Address)
    requires
        at + 4 <= buffer.len(),
    ensures
        r.0@ == buffer@.subrange(at as int, at + 4),
{
    Ipv4Address::from_bytes(vstd::slice::slice_subrange(buffer, at, at + 4))
}

impl IpParameter {
    /// Address, mask and gateway from the first twelve bytes of `buffer`.
    pub fn new(buffer: &[u8], block_info: IpParameterBlockInfo) -> (r: Self)
        requires
            buffer@.len() >= 12,
        ensures
            r.ip_address.0@ == buffer@.subrange(0, 4),
            r.subnet_mask.0@ == buffer@.subrange(4, 8),
            r.gateway.0@ == buffer@.subrange(8, 12),
            r.block_info == block_info,
    {
        Self {
            ip_address: address_at(buffer, 0),
            subnet_mask: address_at(buffer, 4),
            gateway: address_at(buffer, 8),
            block_info,
        }
    }
}

impl FullIpSuite {
    /// Address, mask, gateway and DNS server from the first sixteen bytes of `buffer`.
    pub fn new(buffer: &[u8], block_info: IpParameterBlockInfo) -> (r: Self)
        requires
            buffer@.len() >= 16,
        ensures
            r.ip_address.0@ == buffer@.subrange(0, 4),
            r.subnet_mask.0@ == buffer@.subrange(4, 8),
            r.gateway.0@ == buffer@.subrange(8, 12),
            r.dns.0@ == buffer@.subrange(12, 16),
            r.block_info == block_info,
    {
        Self {
            ip_address: address_at(buffer, 0),
            subnet_mask: address_at(buffer, 4),
            gateway: address_at(buffer, 8),
            dns: address_at(buffer, 12),
            block_info,
        }
    }
}

impl IpBlock {
    /// Parses the body of an IP block from its BlockInfo word and payload.
    pub fn parse(sub: IpSuboption, info: u16, payload: &[u8]) -> (r: Result<
        IpBlock,
        ParseDcpBlockError,
    >)
        ensures
            match r {
                Ok(b) => parse_ip_body(sub, info, payload@) == Ok::<BlockModel, ParseDcpBlockError>(Block::Ip(b)@),
                Err(e) => parse_ip_body(sub, info, payload@) == Err::<BlockModel, _>(e),
            },
    {
        match sub {
            IpSuboption::MacAddress => {
                if payload.len() < 6 {
                    return Err(ParseDcpBlockError::ShortBlock);
                }
                Ok(IpBlock::MacAddress(MacAddress::new(payload)))
            },
            IpSuboption::IpParameter => {
                if payload.len() < 12 {
                    return Err(ParseDcpBlockError::ShortBlock);
                }
                match IpParameterBlockInfo::from_u16(info) {
                    None => Err(ParseDcpBlockError::InvalidIpParameterBlockInfo),
                    Some(i) => Ok(IpBlock::IpParameter(IpParameter::new(payload, i))),
                }
            },
            IpSuboption::FullIpSuite => {
                if payload.len() < 16 {
                    return Err(ParseDcpBlockError::ShortBlock);
                }
                match IpParameterBlockInfo::from_u16(info) {
                    None => Err(ParseDcpBlockError::InvalidIpParameterBlockInfo),
                    Some(i) => Ok(IpBlock::FullIpSuite(FullIpSuite::new(payload, i))),
                }
            },
        }
    }
}

impl DevicePropertiesBlock {
    /// Parses the body of a device properties block from its payload.
    pub fn parse(sub: DevicePropertiesSuboption, payload: &[u8]) -> (r: Result<
        DevicePropertiesBlock,
        ParseDcpBlockError,
    >)
        ensures
            match r {
                Ok(b) => Block::DeviceProperties(b).wf() && parse_properties_body(sub, payload@)
                    == Ok::<BlockModel, ParseDcpBlockError>(Block::DeviceProperties(b)@),
                Err(e) => parse_properties_body(sub, payload@) == Err::<BlockModel, _>(e),
            },
    {
        let n = payload.len();
        match sub {
            DevicePropertiesSuboption::DeviceVendor => {
                if n > MAX_DEVICE_VENDOR_LENGTH {
                    return Err(ParseDcpBlockError::InvalidDevicePropertyBlock);
                }
                let v = DeviceVendor::parse_bytes(payload, n);
                assert(payload@.take(n as int) =~= payload@);
                Ok(DevicePropertiesBlock::DeviceVendor(v))
            },
            DevicePropertiesSuboption::NameOfStation => {
                if n > MAX_NAME_OF_STATION_LENGTH {
                    return Err(ParseDcpBlockError::InvalidDevicePropertyBlock);
                }
                let s = NameOfStation::parse_bytes(payload, n);
                assert(payload@.take(n as int) =~= payload@);
                Ok(DevicePropertiesBlock::NameOfStation(s))
            },
            DevicePropertiesSuboption::DeviceId => {
                if n < 4 {
                    return Err(ParseDcpBlockError::ShortBlock);
                }
                Ok(DevicePropertiesBlock::DeviceId(DeviceId::parse_bytes(payload)))
            },
            DevicePropertiesSuboption::DeviceRole => {
                if n < 1 {
                    return Err(ParseDcpBlockError::ShortBlock);
                }
                match DeviceRole::from_u8(payload[0]) {
                    None => Err(ParseDcpBlockError::InvalidDeviceRole),
                    Some(role) => Ok(DevicePropertiesBlock::DeviceRole(role)),
                }
            },
            DevicePropertiesSuboption::DeviceOptions => Ok(DevicePropertiesBlock::DeviceOptions),
            DevicePropertiesSuboption::AliasName => Ok(DevicePropertiesBlock::AliasName),
            DevicePropertiesSuboption::DeviceInstance => {
                if n < 2 {
                    return Err(ParseDcpBlockError::ShortBlock);
                }
                Ok(DevicePropertiesBlock::DeviceInstance(DeviceInstance::parse_bytes(payload)))
            },
            DevicePropertiesSuboption::OemDeviceId => Ok(DevicePropertiesBlock::OemDeviceId),
            DevicePropertiesSuboption::StandardGateway => Ok(
                DevicePropertiesBlock::StandardGateway,
            ),
            DevicePropertiesSuboption::RsiProperties => Ok(DevicePropertiesBlock::RsiProperties),
        }
    }
}

impl DcpBlock {
    /// Parses one block from `buffer`, which holds the block without its pad byte.
    pub fn parse_block(buffer: &[u8]) -> (r: Result<Self, ParseDcpBlockError>)
        ensures
            match r {
                Ok(b) => b.block.wf() && spec_parse_block(buffer@) == Ok::<DcpBlockView, ParseDcpBlockError>(b@),
                Err(e) => spec_parse_block(buffer@) == Err::<DcpBlockView, _>(e),
            },
    {
        if buffer.len() < 4 {
            return Err(ParseDcpBlockError::ShortBlock);
        }
        let frame = DCPBlockFrame::new_unchecked(buffer);
        let option = match BlockOption::from_u8(frame.option()) {
            Some(o) => o,
            None => return Err(ParseDcpBlockError::InvalidBlockOption),
        };
        let suboption = frame.suboption();
        let declared = frame.block_length();
        let total = wire_length(declared);
        let declared = declared as usize;
        let sized_ok = declared >= 2 && buffer.len() >= 4 + declared;
        match option {
            BlockOption::All => {
                if suboption != 0xff {
                    return Err(ParseDcpBlockError::InvalidAllSuboption);
                }
                if total > 0xffff {
                    return Err(ParseDcpBlockError::BlockLengthOverflow);
                }
                Ok(DcpBlock { block: Block::All, block_length: total as u16 })
            },
            BlockOption::IP => {
                let sub = match IpSuboption::from_u8(suboption) {
                    Some(s) => s,
                    None => return Err(ParseDcpBlockError::InvalidIPSuboption),
                };
                if !sized_ok {
                    return Err(ParseDcpBlockError::ShortBlock);
                }
                if total > 0xffff {
                    return Err(ParseDcpBlockError::BlockLengthOverflow);
                }
                let info = frame.block_info();
                let payload = vstd::slice::slice_subrange(buffer, 6, 4 + declared);
                match IpBlock::parse(sub, info, payload) {
                    Ok(b) => Ok(DcpBlock { block: Block::Ip(b), block_length: total as u16 }),
                    Err(e) => Err(e),
                }
            },
            BlockOption::DeviceProperties => {
                let sub = match DevicePropertiesSuboption::from_u8(suboption) {
                    Some(s) => s,
                    None => return Err(ParseDcpBlockError::InvalidDevicePropertySuboption),
                };
                if !sized_ok {
                    return Err(ParseDcpBlockError::ShortBlock);
                }
                if total > 0xffff {
                    return Err(ParseDcpBlockError::BlockLengthOverflow);
                }
                let payload = vstd::slice::slice_subrange(buffer, 6, 4 + declared);
                match DevicePropertiesBlock::parse(sub, payload) {
                    Ok(b) => Ok(
                        DcpBlock { block: Block::DeviceProperties(b), block_length: total as u16 },
                    ),
                    Err(e) => Err(e),
                }
            },
            _ => Err(ParseDcpBlockError::UnsupportedOption),
        }
    }
}


impl MacAddress {
    /// Writes the address at `buffer[at..at + 6]`.
    pub fn encode_at(&self, buffer: &mut [u8], at: usize)
        requires
            at + 6 <= old(buffer).len(),
        ensures
            final(buffer)@ == splice(old(buffer)@, at as int, self.address.0@),
    {
        copy_bytes(buffer, at, self.address.as_bytes());
    }
}

impl IpParameter {
    /// Writes address, mask and gateway at `buffer[at..at + 12]`.
    pub fn encode_at(&self, buffer: &mut [u8], at: usize)
        requires
            at + 12 <= old(buffer).len(),
        ensures
            final(buffer)@ == splice(
                old(buffer)@,
                at as int,
                self.ip_address.0@ + self.subnet_mask.0@ + self.gateway.0@,
            ),
    {
        copy_bytes(buffer, at, self.ip_address.as_bytes());
        copy_bytes(buffer, at + 4, self.subnet_mask.as_bytes());
        copy_bytes(buffer, at + 8, self.gateway.as_bytes());
        assert(buffer@ =~= splice(
            old(buffer)@,
            at as int,
            self.ip_address.0@ + self.subnet_mask.0@ + self.gateway.0@,
        ));
    }
}

impl FullIpSuite {
    /// Writes address, mask, gateway and DNS server at `buffer[at..at + 16]`.
    pub fn encode_at(&self, buffer: &mut [u8], at: usize)
        requires
            at + 16 <= old(buffer).len(),
        ensures
            final(buffer)@ == splice(
                old(buffer)@,
                at as int,
                self.ip_address.0@ + self.subnet_mask.0@ + self.gateway.0@ + self.dns.0@,
            ),
    {
        copy_bytes(buffer, at, self.ip_address.as_bytes());
        copy_bytes(buffer, at + 4, self.subnet_mask.as_bytes());
        copy_bytes(buffer, at + 8, self.gateway.as_bytes());
        copy_bytes(buffer, at + 12, self.dns.as_bytes());
        assert(buffer@ =~= splice(
            old(buffer)@,
            at as int,
            self.ip_address.0@ + self.subnet_mask.0@ + self.gateway.0@ + self.dns.0@,
        ));
    }
}

impl MacAddress {
    /// The declared length of a block carrying the address.
    pub fn block_length(&self) -> (r: u16)
        ensures
            r == 8,
    {
        8
    }
}

impl IpParameter {
    /// The declared length of a block carrying the parameters.
    pub fn block_length(&self) -> (r: u16)
        ensures
            r == 14,
    {
        14
    }
}

impl FullIpSuite {
    /// The declared length of a block carrying the suite.
    pub fn block_length(&self) -> (r: u16)
        ensures
            r == 18,
    {
        18
    }
}

impl IpBlock {
    /// The declared length of the block.
    pub fn block_length(&self) -> (r: u16)
        ensures
            r == Block::Ip(*self)@.declared_len(),
    {
        match self {
            IpBlock::MacAddress(m) => m.block_length(),
            IpBlock::IpParameter(p) => p.block_length(),
            IpBlock::FullIpSuite(s) => s.block_length(),
        }
    }
}

impl DevicePropertiesBlock {
    /// The declared length of the block.
    pub fn block_length(&self) -> (r: u16)
        requires
            Block::DeviceProperties(*self).wf(),
        ensures
            r == Block::DeviceProperties(*self)@.declared_len(),
    {
        match self {
            DevicePropertiesBlock::DeviceVendor(v) => v.block_length(),
            DevicePropertiesBlock::NameOfStation(n) => n.block_length(),
            DevicePropertiesBlock::DeviceId(d) => d.block_length(),
            DevicePropertiesBlock::DeviceRole(_) => 4,
            DevicePropertiesBlock::DeviceOptions => 4,
            DevicePropertiesBlock::DeviceInstance(i) => i.block_length(),
            _ => 3,
        }
    }
}

impl Block {
    /// The option byte.
    pub fn option(&self) -> (r: u8)
        ensures
            r == self@.option(),
    {
        match self {
            Block::Ip(_) => BlockOption::IP.as_u8(),
            Block::DeviceProperties(_) => BlockOption::DeviceProperties.as_u8(),
            Block::All => BlockOption::All.as_u8(),
        }
    }

    /// The suboption byte.
    pub fn suboption(&self) -> (r: u8)
        ensures
            r == self@.suboption(),
    {
        match self {
            Block::Ip(IpBlock::MacAddress(_)) => IpSuboption::MacAddress.as_u8(),
            Block::Ip(IpBlock::IpParameter(_)) => IpSuboption::IpParameter.as_u8(),
            Block::Ip(IpBlock::FullIpSuite(_)) => IpSuboption::FullIpSuite.as_u8(),
            Block::DeviceProperties(dp) => match dp {
                DevicePropertiesBlock::DeviceVendor(_) => DevicePropertiesSuboption::DeviceVendor.as_u8(),
                DevicePropertiesBlock::NameOfStation(_) => DevicePropertiesSuboption::NameOfStation.as_u8(),
                DevicePropertiesBlock::DeviceId(_) => DevicePropertiesSuboption::DeviceId.as_u8(),
                DevicePropertiesBlock::DeviceRole(_) => DevicePropertiesSuboption::DeviceRole.as_u8(),
                DevicePropertiesBlock::DeviceOptions => DevicePropertiesSuboption::DeviceOptions.as_u8(),
                DevicePropertiesBlock::AliasName => DevicePropertiesSuboption::AliasName.as_u8(),
                DevicePropertiesBlock::DeviceInstance(_) => DevicePropertiesSuboption::DeviceInstance.as_u8(),
                DevicePropertiesBlock::OemDeviceId => DevicePropertiesSuboption::OemDeviceId.as_u8(),
                DevicePropertiesBlock::StandardGateway => DevicePropertiesSuboption::StandardGateway.as_u8(),
                DevicePropertiesBlock::RsiProperties => DevicePropertiesSuboption::RsiProperties.as_u8(),
            },
            Block::All => 0xff,
        }
    }

    /// The BlockInfo word.
    pub fn info(&self) -> (r: u16)
        ensures
            r == self@.info(),
    {
        match self {
            Block::Ip(IpBlock::IpParameter(p)) => p.block_info.as_u16(),
            Block::Ip(IpBlock::FullIpSuite(s)) => s.block_info.as_u16(),
            _ => 0,
        }
    }

    /// The declared length L of the block.
    pub fn declared_length(&self) -> (r: u16)
        requires
            self.wf(),
        ensures
            r == self@.declared_len(),
    {
        match self {
            Block::Ip(ip) => ip.block_length(),
            Block::DeviceProperties(dp) => dp.block_length(),
            Block::All => 0,
        }
    }

    /// Writes the payload that follows the BlockInfo word at `buffer[at..]`.
    fn encode_payload(&self, buffer: &mut [u8], at: usize)
        requires
            self.wf(),
            at + self@.payload().len() <= old(buffer).len(),
        ensures
            final(buffer)@ == splice(old(buffer)@, at as int, self@.payload()),
    {
        match self {
            Block::Ip(IpBlock::MacAddress(m)) => m.encode_at(buffer, at),
            Block::Ip(IpBlock::IpParameter(p)) => p.encode_at(buffer, at),
            Block::Ip(IpBlock::FullIpSuite(s)) => s.encode_at(buffer, at),
            Block::DeviceProperties(dp) => match dp {
                DevicePropertiesBlock::DeviceVendor(v) => copy_bytes(buffer, at, v.as_bytes()),
                DevicePropertiesBlock::NameOfStation(n) => copy_bytes(buffer, at, n.as_bytes()),
                DevicePropertiesBlock::DeviceId(d) => {
                    write_u16(buffer, at, d.vendor_id);
                    write_u16(buffer, at + 2, d.device_id);
                    assert(buffer@ =~= splice(old(buffer)@, at as int, self@.payload()));
                },
                DevicePropertiesBlock::DeviceRole(role) => {
                    put_u8(buffer, at, role.as_u8());
                    put_u8(buffer, at + 1, 0);
                    assert(buffer@ =~= splice(old(buffer)@, at as int, self@.payload()));
                },
                DevicePropertiesBlock::DeviceOptions => {
                    put_u8(buffer, at, 2);
                    put_u8(buffer, at + 1, 7);
                    assert(buffer@ =~= splice(old(buffer)@, at as int, self@.payload()));
                },
                DevicePropertiesBlock::DeviceInstance(i) => {
                    put_u8(buffer, at, i.high);
                    put_u8(buffer, at + 1, i.low);
                    assert(buffer@ =~= splice(old(buffer)@, at as int, self@.payload()));
                },
                _ => put_u8(buffer, at, 0),
            },
            Block::All => {
                assert(buffer@ =~= splice(old(buffer)@, at as int, self@.payload()));
            },
        }
    }

    /// Writes the block, without its pad byte, at `buffer[at..]`.
    pub fn encode_at(&self, buffer: &mut [u8], at: usize)
        requires
            self.wf(),
            at + self@.bytes().len() <= old(buffer).len(),
        ensures
            final(buffer)@ == splice(old(buffer)@, at as int, self@.bytes()),
    {
        let ghost m = self@;
        let ghost s0 = buffer@;
        let ghost head = seq![m.option(), m.suboption()] + u16_bytes(m.declared_len() as u16);
        put_u8(buffer, at, self.option());
        put_u8(buffer, at + 1, self.suboption());
        proof {
            lemma_splice_twice(s0, at as int, seq![m.option()], seq![m.suboption()]);
            assert(seq![m.option()] + seq![m.suboption()] =~= seq![m.option(), m.suboption()]);
        }
        write_u16(buffer, at + 2, self.declared_length());
        proof {
            lemma_splice_twice(
                s0,
                at as int,
                seq![m.option(), m.suboption()],
                u16_bytes(m.declared_len() as u16),
            );
        }
        if let Block::All = self {
            return;
        }
        write_u16(buffer, at + 4, self.info());
        proof {
            lemma_splice_twice(s0, at as int, head, u16_bytes(m.info()));
        }
        self.encode_payload(buffer, at + 6);
        proof {
            lemma_splice_twice(s0, at as int, head + u16_bytes(m.info()), m.payload());
        }
    }

    /// Writes the block, without its pad byte, at the front of `buffer`.
    pub fn encode_into(&self, buffer: &mut [u8])
        requires
            self.wf(),
            self@.bytes().len() <= old(buffer).len(),
        ensures
            final(buffer)@ == splice(old(buffer)@, 0, self@.bytes()),
    {
        self.encode_at(buffer, 0);
    }
}

impl DcpBlock {
    /// A block with the length it takes in a frame.
    pub fn new(block: Block) -> (r: Self)
        requires
            block.wf(),
        ensures
            r.block == block,
            r.block_length == block@.wire_len(),
    {
        let declared = block.declared_length();
        let block_length = wire_length(declared) as u16;
        Self { block, block_length }
    }

    /// Writes the block, without its pad byte, at the front of `buffer`.
    pub fn encode_into(&self, buffer: &mut [u8])
        requires
            self.block.wf(),
            self.block@.bytes().len() <= old(buffer).len(),
        ensures
            final(buffer)@ == splice(old(buffer)@, 0, self.block@.bytes()),
    {
        self.block.encode_at(buffer, 0);
    }
}

} // verus!
