//! A whole DCP frame: Ethernet addresses, FrameID, header and up to
//! [`MAX_DCP_BLOCK_NUMBER`] blocks; its parser and its builder.

use crate::address::EthernetAddress;
use crate::block::{
    copy_bytes, padded, spec_parse_block, wire_length, Block, BlockModel, DcpBlock, DcpBlockView,
    DeviceId, DeviceVendor, DevicePropertiesBlock, IpBlock, IpParameter, IpParameterBlockInfo,
    NameOfStation,
};
use crate::bytes::{be16_at, lemma_splice_twice, put_u8, read_u16, splice, u16_bytes, write_u16};
use crate::device::{Config, ConfigView};
use crate::pnet::PNet;
use crate::error::{ParseDcpBlockError, ParseDcpError};
use crate::frame::{spec_dcp_start, spec_is_vlan, DCPFrame, DcpFrameId, EthType, ETHER_TYPE_PROFINET};
use crate::header::{
    header_bytes, spec_parse_header, DcpHeader, DcpHeaderFrame, ServiceId, ServiceType,
    DCP_HEADER_LENGTH_FIELD,
};
use vstd::prelude::*;

verus! {

/// The multicast address of Identify requests.
pub const DCP_MAC_HELLO_ADDRESS: [u8; 6] = [0x01, 0x0e, 0xcf, 0x00, 0x00, 0x00];

/// The most blocks a frame holds.
pub const MAX_DCP_BLOCK_NUMBER: usize = 32;

/// A DCP frame as a mathematical value.
pub struct DcpView {
    pub destination: Seq<u8>,
    pub source: Seq<u8>,
    pub eth_type: EthType,
    pub is_vlan: bool,
    pub frame_id: DcpFrameId,
    pub header: DcpHeader,
    pub blocks: Seq<DcpBlockView>,
}

/// A parsed request or a response being built.
#[derive(Debug, Clone, Copy)]
pub struct Dcp {
    pub destination: EthernetAddress,
    pub source: EthernetAddress,
    pub eth_type: EthType,
    pub is_vlan: bool,
    pub frame_id: DcpFrameId,
    pub header: DcpHeader,
    pub number_of_blocks: usize,
    pub blocks: [Option<DcpBlock>; MAX_DCP_BLOCK_NUMBER],
}

/// The blocks held in the first `n` slots.
pub open spec fn blocks_view(blocks: [Option<DcpBlock>; MAX_DCP_BLOCK_NUMBER], n: int) -> Seq<
    DcpBlockView,
> {
    Seq::new(n as nat, |i: int| blocks[i].unwrap()@)
}

impl View for Dcp {
    type V = DcpView;

    open spec fn view(&self) -> DcpView {
        DcpView {
            destination: self.destination.0@,
            source: self.source.0@,
            eth_type: self.eth_type,
            is_vlan: self.is_vlan,
            frame_id: self.frame_id,
            header: self.header,
            blocks: blocks_view(self.blocks, self.number_of_blocks as int),
        }
    }
}

impl Dcp {
    /// The first `number_of_blocks` slots hold well-formed blocks, the others none.
    pub open spec fn wf(&self) -> bool {
        &&& self.number_of_blocks <= MAX_DCP_BLOCK_NUMBER
        &&& forall|i: int|
            0 <= i < self.number_of_blocks ==> (#[trigger] self.blocks[i]) is Some
                && self.blocks[i].unwrap().block.wf()
        &&& forall|i: int|
            self.number_of_blocks <= i < MAX_DCP_BLOCK_NUMBER ==> (#[trigger] self.blocks[i]) is None
    }
}

/// Walks the block chain `region` up to `data_length`, starting at `cursor`
/// with `count` blocks already in `acc`.
pub open spec fn spec_parse_blocks(
    region: Seq<u8>,
    data_length: int,
    cursor: int,
    count: nat,
    acc: Seq<DcpBlockView>,
) -> Result<Seq<DcpBlockView>, ParseDcpError>
    decreases MAX_DCP_BLOCK_NUMBER - count,
{
    if cursor >= data_length {
        Ok(acc)
    } else if count >= MAX_DCP_BLOCK_NUMBER {
        Err(ParseDcpError::BlockError(ParseDcpBlockError::TooManyBlocks))
    } else if cursor + 4 > region.len() {
        Err(ParseDcpError::BlockError(ParseDcpBlockError::ShortBlock))
    } else {
        let end = cursor + 4 + be16_at(region, cursor + 2);
        if end > data_length {
            Err(ParseDcpError::BlockError(ParseDcpBlockError::BlockLengthOverflow))
        } else if end > region.len() {
            Err(ParseDcpError::BlockError(ParseDcpBlockError::ShortBlock))
        } else {
            match spec_parse_block(region.subrange(cursor, end)) {
                Err(e) => Err(ParseDcpError::BlockError(e)),
                Ok(b) => spec_parse_blocks(region, data_length, padded(end), count + 1, acc.push(b)),
            }
        }
    }
}

/// What parsing the raw Ethernet frame `s` gives.
pub open spec fn spec_parse_frame(s: Seq<u8>) -> Result<DcpView, ParseDcpError> {
    let start = spec_dcp_start(s);
    if s.len() < 16 || s.len() < start {
        Err(ParseDcpError::ShortFrame)
    } else if be16_at(s, start - 4) != ETHER_TYPE_PROFINET {
        Err(ParseDcpError::NotProfinet)
    } else {
        match DcpFrameId::spec_from(be16_at(s, start - 2)) {
            None => Err(ParseDcpError::FrameIdError),
            Some(frame_id) => match spec_parse_header(s.skip(start)) {
                Err(e) => Err(ParseDcpError::HeaderError(e)),
                Ok(header) => match spec_parse_blocks(
                    s.skip(start + DCP_HEADER_LENGTH_FIELD),
                    header.data_length as int,
                    0,
                    0,
                    Seq::empty(),
                ) {
                    Err(e) => Err(e),
                    Ok(blocks) => Ok(
                        DcpView {
                            destination: s.take(6),
                            source: s.subrange(6, 12),
                            eth_type: EthType::Profinet,
                            is_vlan: spec_is_vlan(s),
                            frame_id,
                            header,
                            blocks,
                        },
                    ),
                },
            },
        }
    }
}

impl Dcp {
    /// Parses the frame `frame` views.
    #[verifier::loop_isolation(false)]
    pub fn parse(frame: &DCPFrame) -> (r: Result<Self, ParseDcpError>)
        requires
            frame.wf(),
        ensures
            match r {
                Ok(d) => d.wf() && spec_parse_frame(frame.buffer@) == Ok::<
                    DcpView,
                    ParseDcpError,
                >(d@),
                Err(e) => spec_parse_frame(frame.buffer@) == Err::<DcpView, _>(e),
            },
    {
        let len = frame.buffer.len();
        let start = frame.dcp_start();
        if len < 16 || len < start {
            return Err(ParseDcpError::ShortFrame);
        }
        if !frame.is_profinet_dcp() {
            return Err(ParseDcpError::NotProfinet);
        }
        let frame_id = match DcpFrameId::from_u16(frame.frame_id_u16()) {
            Some(f) => f,
            None => return Err(ParseDcpError::FrameIdError),
        };
        let payload = frame.payload();
        let header_frame = match DcpHeaderFrame::new_checked(payload) {
            Ok(h) => h,
            Err(e) => return Err(ParseDcpError::HeaderError(e)),
        };
        let header = match DcpHeader::parse(&header_frame) {
            Ok(h) => h,
            Err(e) => return Err(ParseDcpError::HeaderError(e)),
        };
        let region = header_frame.payload();
        assert(region@ == frame.buffer@.skip(start + DCP_HEADER_LENGTH_FIELD));
        let data_length = header.data_length as usize;
        let mut blocks: [Option<DcpBlock>; MAX_DCP_BLOCK_NUMBER] = [None; MAX_DCP_BLOCK_NUMBER];
        let mut count: usize = 0;
        let mut cursor: usize = 0;
        assert(blocks_view(blocks, 0) =~= Seq::empty());
        while cursor < data_length
            invariant
                count <= MAX_DCP_BLOCK_NUMBER,
                cursor <= data_length + 1,
                data_length == header.data_length,
                forall|i: int|
                    0 <= i < count ==> (#[trigger] blocks[i]) is Some && blocks[i].unwrap().block.wf(),
                forall|i: int| count <= i < MAX_DCP_BLOCK_NUMBER ==> (#[trigger] blocks[i]) is None,
                spec_parse_blocks(
                    region@,
                    data_length as int,
                    cursor as int,
                    count as nat,
                    blocks_view(blocks, count as int),
                ) == spec_parse_blocks(region@, data_length as int, 0, 0, Seq::empty()),
            decreases MAX_DCP_BLOCK_NUMBER - count,
        {
            if count >= MAX_DCP_BLOCK_NUMBER {
                return Err(ParseDcpError::BlockError(ParseDcpBlockError::TooManyBlocks));
            }
            if cursor + 4 > region.len() {
                return Err(ParseDcpError::BlockError(ParseDcpBlockError::ShortBlock));
            }
            let declared = read_u16(region, cursor + 2) as usize;
            let end = cursor + 4 + declared;
            if end > data_length {
                return Err(ParseDcpError::BlockError(ParseDcpBlockError::BlockLengthOverflow));
            }
            if end > region.len() {
                return Err(ParseDcpError::BlockError(ParseDcpBlockError::ShortBlock));
            }
            let block = match DcpBlock::parse_block(vstd::slice::slice_subrange(region, cursor, end)) {
                Ok(b) => b,
                Err(e) => return Err(ParseDcpError::BlockError(e)),
            };
            let ghost before = blocks_view(blocks, count as int);
            blocks[count] = Some(block);
            count = count + 1;
            assert(blocks_view(blocks, count as int) =~= before.push(block@));
            cursor = if end % 2 == 1 {
                end + 1
            } else {
                end
            };
        }
        let r = Dcp {
            destination: frame.destination(),
            source: frame.source(),
            eth_type: EthType::Profinet,
            is_vlan: frame.is_vlan(),
            frame_id,
            header,
            number_of_blocks: count,
            blocks,
        };
        Ok(r)
    }
}


/// Offset of the first block in an untagged frame.
pub const DCP_BLOCKS_START: usize = 26;

/// The blocks as they stand in a frame, pad bytes included.
pub open spec fn blocks_bytes(blocks: Seq<DcpBlockView>) -> Seq<u8>
    decreases blocks.len(),
{
    if blocks.len() == 0 {
        Seq::empty()
    } else {
        blocks_bytes(blocks.drop_last()) + blocks.last().block.wire_bytes()
    }
}

/// The room the blocks take in a frame, pad bytes included.
pub open spec fn blocks_len(blocks: Seq<DcpBlockView>) -> int
    decreases blocks.len(),
{
    if blocks.len() == 0 {
        0
    } else {
        blocks_len(blocks.drop_last()) + blocks.last().block.wire_len()
    }
}

/// The sum of the recorded block lengths.
pub open spec fn block_length_sum(blocks: Seq<DcpBlockView>) -> int
    decreases blocks.len(),
{
    if blocks.len() == 0 {
        0
    } else {
        block_length_sum(blocks.drop_last()) + blocks.last().block_length
    }
}

/// The untagged frame written for `v`: addresses, PROFINET EtherType,
/// FrameID, header and blocks.
pub open spec fn frame_bytes(v: DcpView) -> Seq<u8> {
    v.destination + v.source + u16_bytes(ETHER_TYPE_PROFINET) + u16_bytes(v.frame_id.spec_value())
        + header_bytes(v.header) + blocks_bytes(v.blocks)
}

pub proof fn lemma_wire_len(m: BlockModel)
    ensures
        m.bytes().len() == 4 + m.declared_len(),
        m.wire_bytes().len() == m.wire_len(),
        m.wire_len() >= 4,
{
}

pub proof fn lemma_blocks_len(blocks: Seq<DcpBlockView>)
    ensures
        blocks_bytes(blocks).len() == blocks_len(blocks),
        blocks_len(blocks) >= 0,
    decreases blocks.len(),
{
    if blocks.len() > 0 {
        lemma_blocks_len(blocks.drop_last());
        lemma_wire_len(blocks.last().block);
    }
}

pub proof fn lemma_blocks_len_prefix(blocks: Seq<DcpBlockView>, i: int)
    requires
        0 <= i <= blocks.len(),
    ensures
        blocks_len(blocks.take(i)) <= blocks_len(blocks),
    decreases blocks.len() - i,
{
    if i < blocks.len() {
        lemma_blocks_len_prefix(blocks, i + 1);
        assert(blocks.take(i + 1).drop_last() =~= blocks.take(i));
        lemma_wire_len(blocks[i].block);
    } else {
        assert(blocks.take(i) =~= blocks);
    }
}

/// The delay, in time units, before answering a request with response delay factor `rdf`.
pub open spec fn spec_response_delay(rdf: u16) -> int {
    if rdf <= 1 {
        400
    } else {
        let d = 1 + rdf * 10;
        d + (1000 - d % 1000)
    }
}

/// The delay before answering a request with response delay factor `rdf`:
/// 400 for a factor of at most 1, else `1 + 10 * rdf` rounded up to a
/// multiple of 1000.
pub fn response_delay(rdf: u16) -> (r: u64)
    ensures
        r == spec_response_delay(rdf),
        rdf <= 1 ==> r == 400,
        rdf >= 2 ==> r % 1000 == 0 && r >= 1 + 10 * rdf && r < 1 + 10 * rdf + 1000,
{
    if rdf <= 1 {
        400
    } else {
        let delay = 1 + rdf as u64 * 10;
        let rem = delay % 1000;
        delay + (1000 - rem)
    }
}

impl Dcp {
    /// A frame with no blocks.
    pub fn new(
        destination: EthernetAddress,
        source: EthernetAddress,
        header: DcpHeader,
        frame_id: DcpFrameId,
    ) -> (r: Self)
        ensures
            r.wf(),
            r.number_of_blocks == 0,
            r@ == (DcpView {
                destination: destination.0@,
                source: source.0@,
                eth_type: EthType::Profinet,
                is_vlan: false,
                frame_id,
                header,
                blocks: Seq::empty(),
            }),
    {
        let r = Self {
            destination,
            source,
            eth_type: EthType::Profinet,
            is_vlan: false,
            frame_id,
            header,
            number_of_blocks: 0,
            blocks: [None; MAX_DCP_BLOCK_NUMBER],
        };
        assert(r@.blocks =~= Seq::empty());
        r
    }

    /// Appends a block and counts its length into the header's data length.
    pub fn add_block(&mut self, block: DcpBlock)
        requires
            old(self).wf(),
            old(self).number_of_blocks < MAX_DCP_BLOCK_NUMBER,
            block.block.wf(),
            old(self).header.data_length + block.block_length <= u16::MAX,
        ensures
            final(self).wf(),
            final(self).number_of_blocks == old(self).number_of_blocks + 1,
            final(self)@ == (DcpView {
                blocks: old(self)@.blocks.push(block@),
                header: DcpHeader {
                    data_length: (old(self).header.data_length + block.block_length) as u16,
                    ..old(self).header
                },
                ..old(self)@
            }),
    {
        let ghost before = self@.blocks;
        self.blocks[self.number_of_blocks] = Some(block);
        self.number_of_blocks = self.number_of_blocks + 1;
        self.header.data_length = self.header.data_length + block.block_length;
        assert(self@.blocks =~= before.push(block@));
    }

    /// The frame length: 26 bytes of framing and header plus the recorded block lengths.
    pub fn length(&self) -> (r: usize)
        requires
            self.wf(),
        ensures
            r == DCP_BLOCKS_START + block_length_sum(self@.blocks),
    {
        let mut acc: usize = DCP_BLOCKS_START;
        let mut i: usize = 0;
        while i < self.number_of_blocks
            invariant
                self.wf(),
                i <= self.number_of_blocks,
                acc == DCP_BLOCKS_START + block_length_sum(self@.blocks.take(i as int)),
                acc <= DCP_BLOCKS_START + i * 0xffff,
            decreases self.number_of_blocks - i,
        {
            let b = self.blocks[i].unwrap();
            assert(self@.blocks.take(i + 1).drop_last() =~= self@.blocks.take(i as int));
            acc = acc + b.block_length as usize;
            i = i + 1;
        }
        assert(self@.blocks.take(i as int) =~= self@.blocks);
        acc
    }

    /// Whether the frame is addressed to the Identify multicast address.
    pub fn dst_is_hello(&self) -> (r: bool)
        ensures
            r == (self.destination.0@ == DCP_MAC_HELLO_ADDRESS@),
    {
        self.destination.same_as(&EthernetAddress(DCP_MAC_HELLO_ADDRESS))
    }

    /// The delay before answering this request.
    pub fn response_delay_time(&self) -> (r: u64)
        ensures
            r == spec_response_delay(self.header.response_delay_factor),
    {
        response_delay(self.header.response_delay_factor)
    }

    /// Writes the frame untagged at the front of `buffer`, each odd block followed by a zero pad byte.
    pub fn encode_into(&self, buffer: &mut [u8])
        requires
            self.wf(),
            DCP_BLOCKS_START + blocks_len(self@.blocks) <= old(buffer).len(),
        ensures
            final(buffer)@ == splice(old(buffer)@, 0, frame_bytes(self@)),
    {
        let ghost v = self@;
        let ghost s0 = buffer@;
        proof {
            lemma_blocks_len(v.blocks);
        }
        copy_bytes(buffer, 0, self.destination.as_bytes());
        copy_bytes(buffer, 6, self.source.as_bytes());
        proof {
            lemma_splice_twice(s0, 0, v.destination, v.source);
        }
        write_u16(buffer, 12, ETHER_TYPE_PROFINET);
        proof {
            lemma_splice_twice(s0, 0, v.destination + v.source, u16_bytes(ETHER_TYPE_PROFINET));
        }
        write_u16(buffer, 14, self.frame_id.as_u16());
        proof {
            lemma_splice_twice(
                s0,
                0,
                v.destination + v.source + u16_bytes(ETHER_TYPE_PROFINET),
                u16_bytes(v.frame_id.spec_value()),
            );
        }
        self.header.encode_at(buffer, 16);
        let ghost prefix = v.destination + v.source + u16_bytes(ETHER_TYPE_PROFINET) + u16_bytes(
            v.frame_id.spec_value(),
        ) + header_bytes(v.header);
        proof {
            lemma_splice_twice(
                s0,
                0,
                v.destination + v.source + u16_bytes(ETHER_TYPE_PROFINET) + u16_bytes(
                    v.frame_id.spec_value(),
                ),
                header_bytes(v.header),
            );
            assert(blocks_bytes(v.blocks.take(0)) =~= Seq::<u8>::empty());
            assert(prefix + blocks_bytes(v.blocks.take(0)) =~= prefix);
        }
        let mut at: usize = DCP_BLOCKS_START;
        let mut i: usize = 0;
        while i < self.number_of_blocks
            invariant
                self.wf(),
                v == self@,
                i <= self.number_of_blocks,
                prefix.len() == DCP_BLOCKS_START,
                at == DCP_BLOCKS_START + blocks_len(v.blocks.take(i as int)),
                DCP_BLOCKS_START + blocks_len(v.blocks) <= buffer.len(),
                buffer@.len() == s0.len(),
                buffer@ == splice(s0, 0, prefix + blocks_bytes(v.blocks.take(i as int))),
            decreases self.number_of_blocks - i,
        {
            let b = self.blocks[i].unwrap();
            let ghost m = b.block@;
            proof {
                assert(v.blocks[i as int].block == m);
                assert(v.blocks.take(i + 1).drop_last() =~= v.blocks.take(i as int));
                lemma_blocks_len_prefix(v.blocks, i + 1);
                lemma_blocks_len(v.blocks.take(i as int));
                lemma_wire_len(m);
            }
            let declared = b.block.declared_length();
            let ghost done = prefix + blocks_bytes(v.blocks.take(i as int));
            proof {
                assert(blocks_len(v.blocks.take(i + 1)) == blocks_len(v.blocks.take(i as int))
                    + m.wire_len());
                assert(blocks_bytes(v.blocks.take(i + 1)) == blocks_bytes(v.blocks.take(i as int))
                    + m.wire_bytes());
            }
            b.block.encode_at(buffer, at);
            proof {
                lemma_splice_twice(s0, 0, done, m.bytes());
            }
            let size = 4 + declared as usize;
            if size % 2 == 1 {
                put_u8(buffer, at + size, 0);
                proof {
                    lemma_splice_twice(s0, 0, done + m.bytes(), seq![0u8]);
                    assert(done + m.bytes() + seq![0u8] =~= done + m.wire_bytes());
                }
            } else {
                assert(done + m.bytes() =~= done + m.wire_bytes());
            }
            at = at + wire_length(declared);
            i = i + 1;
            proof {
                assert(prefix + blocks_bytes(v.blocks.take(i as int)) =~= done + m.wire_bytes());
            }
        }
        proof {
            assert(v.blocks.take(i as int) =~= v.blocks);
        }
    }
}


/// Every block records the length it takes in a frame.
pub open spec fn canonical_blocks(blocks: Seq<DcpBlockView>) -> bool {
    forall|i: int|
        #![trigger blocks[i]]
        0 <= i < blocks.len() ==> blocks[i].block_length == blocks[i].block.wire_len()
            && blocks[i].block.wf()
}

/// A frame as the builder makes it: untagged PROFINET, response delay factor 0,
/// well-formed blocks that record their lengths, and a data length that is
/// their sum.
pub open spec fn canonical_frame(v: DcpView) -> bool {
    &&& v.destination.len() == 6
    &&& v.source.len() == 6
    &&& v.eth_type == EthType::Profinet
    &&& !v.is_vlan
    &&& v.header.response_delay_factor == 0
    &&& v.blocks.len() <= MAX_DCP_BLOCK_NUMBER
    &&& canonical_blocks(v.blocks)
    &&& v.header.data_length == blocks_len(v.blocks)
}

/// A block model with the length it takes in a frame.
pub open spec fn sized_block(m: BlockModel) -> DcpBlockView {
    DcpBlockView { block: m, block_length: m.wire_len() as u16 }
}

/// Whether all three IP parameters are 0.0.0.0.
pub open spec fn ip_unset(c: ConfigView) -> bool {
    &&& c.ip_address == seq![0u8, 0u8, 0u8, 0u8]
    &&& c.subnet_mask == seq![0u8, 0u8, 0u8, 0u8]
    &&& c.gateway == seq![0u8, 0u8, 0u8, 0u8]
}

/// The BlockInfo of the IP parameters in an Identify response.
pub open spec fn ip_block_info(c: ConfigView) -> IpParameterBlockInfo {
    if ip_unset(c) {
        IpParameterBlockInfo::IpNotSet
    } else {
        IpParameterBlockInfo::IpSetViaSetRequest
    }
}

/// The blocks of an Identify response, in their fixed order.
pub open spec fn identify_blocks(c: ConfigView) -> Seq<DcpBlockView> {
    seq![
        sized_block(BlockModel::DeviceOptions),
        sized_block(BlockModel::NameOfStation(c.name_of_station)),
        sized_block(BlockModel::DeviceVendor(c.device_vendor)),
        sized_block(BlockModel::DeviceRole(c.device_role)),
        sized_block(BlockModel::DeviceId(c.vendor_id, c.device_id)),
        sized_block(BlockModel::DeviceInstance(c.device_instance.high, c.device_instance.low)),
        sized_block(BlockModel::IpParameter(c.ip_address, c.subnet_mask, c.gateway, ip_block_info(c))),
    ]
}

/// The Identify response of a device with identity `c` to `request`.
pub open spec fn identify_response(request: DcpView, c: ConfigView) -> DcpView {
    let blocks = identify_blocks(c);
    DcpView {
        destination: request.source,
        source: c.mac_address,
        eth_type: EthType::Profinet,
        is_vlan: false,
        frame_id: DcpFrameId::Response,
        header: DcpHeader {
            service_id: ServiceId::Identify,
            service_type: ServiceType::Success,
            x_id: request.header.x_id,
            response_delay_factor: 0,
            data_length: blocks_len(blocks) as u16,
        },
        blocks,
    }
}

pub proof fn lemma_blocks_len_push(blocks: Seq<DcpBlockView>, b: DcpBlockView)
    ensures
        blocks_len(blocks.push(b)) == blocks_len(blocks) + b.block.wire_len(),
        blocks_bytes(blocks.push(b)) == blocks_bytes(blocks) + b.block.wire_bytes(),
        block_length_sum(blocks.push(b)) == block_length_sum(blocks) + b.block_length,
{
    assert(blocks.push(b).drop_last() =~= blocks);
}

/// The blocks of an Identify response from a device with identity `config`,
/// in their fixed order.
pub fn identify_block_values(config: &Config) -> (r: [DcpBlock; 7])
    requires
        config.wf(),
    ensures
        forall|i: int|
            #![trigger r[i]]
            0 <= i < 7 ==> r[i]@ == identify_blocks(config@)[i] && r[i].block.wf()
                && r[i].block_length <= 262,
{
    let ghost c = config@;
    let name = NameOfStation::new(config.name_of_station, config.name_of_station_len);
    let vendor = DeviceVendor::new(config.device_vendor, config.device_vendor_len);
    let ip_unset = config.ip_config.ip_address.is_unspecified()
        && config.ip_config.subnet_mask.is_unspecified()
        && config.ip_config.gateway.is_unspecified();
    let block_info = if ip_unset {
        IpParameterBlockInfo::IpNotSet
    } else {
        IpParameterBlockInfo::IpSetViaSetRequest
    };
    let r = [
        DcpBlock::new(Block::DeviceProperties(DevicePropertiesBlock::DeviceOptions)),
        DcpBlock::new(Block::DeviceProperties(DevicePropertiesBlock::NameOfStation(name))),
        DcpBlock::new(Block::DeviceProperties(DevicePropertiesBlock::DeviceVendor(vendor))),
        DcpBlock::new(
            Block::DeviceProperties(DevicePropertiesBlock::DeviceRole(config.device_role)),
        ),
        DcpBlock::new(
            Block::DeviceProperties(
                DevicePropertiesBlock::DeviceId(
                    DeviceId { vendor_id: config.vendor_id, device_id: config.device_id },
                ),
            ),
        ),
        DcpBlock::new(
            Block::DeviceProperties(DevicePropertiesBlock::DeviceInstance(config.device_instance)),
        ),
        DcpBlock::new(
            Block::Ip(
                IpBlock::IpParameter(
                    IpParameter {
                        ip_address: config.ip_config.ip_address,
                        subnet_mask: config.ip_config.subnet_mask,
                        gateway: config.ip_config.gateway,
                        block_info,
                    },
                ),
            ),
        ),
    ];
    proof {
        assert(block_info == ip_block_info(c));
        let all = identify_blocks(c);
        assert(r[0]@ == all[0]);
        assert(r[1]@ == all[1]);
        assert(r[2]@ == all[2]);
        assert(r[3]@ == all[3]);
        assert(r[4]@ == all[4]);
        assert(r[5]@ == all[5]);
        assert(r[6]@ == all[6]);
    }
    r
}

impl Dcp {
    /// The Identify response to this request from device `pnet`.
    pub fn new_hello_response(&self, pnet: &PNet) -> (r: Dcp)
        requires
            pnet.config.wf(),
        ensures
            r.wf(),
            r@ == identify_response(self@, pnet.config@),
            canonical_frame(r@),
            r.number_of_blocks == 7,
    {
        let config = &pnet.config;
        let header = DcpHeader::new(
            ServiceId::Identify,
            ServiceType::Success,
            self.header.x_id,
            0,
        );
        let mut response = Dcp::new(
            self.source,
            config.ip_config.mac_address,
            header,
            DcpFrameId::Response,
        );
        let blocks = identify_block_values(config);
        let ghost all = identify_blocks(config@);
        let ghost start = response@;
        let mut i: usize = 0;
        assert(all.take(0) =~= Seq::<DcpBlockView>::empty());
        while i < 7
            invariant
                i <= 7,
                all == identify_blocks(config@),
                forall|j: int|
                    #![trigger blocks[j]]
                    0 <= j < 7 ==> blocks[j]@ == all[j] && blocks[j].block.wf()
                        && blocks[j].block_length <= 262,
                response.wf(),
                response.number_of_blocks == i,
                blocks_len(all.take(i as int)) <= 262 * i,
                response@ == (DcpView {
                    blocks: all.take(i as int),
                    header: DcpHeader {
                        data_length: blocks_len(all.take(i as int)) as u16,
                        ..start.header
                    },
                    ..start
                }),
                response.header.data_length == blocks_len(all.take(i as int)),
            decreases 7 - i,
        {
            let b = blocks[i];
            proof {
                assert(all.take(i + 1) =~= all.take(i as int).push(all[i as int]));
                lemma_blocks_len_push(all.take(i as int), all[i as int]);
                assert(b@ == all[i as int]);
                assert(b.block_length == b.block@.wire_len());
            }
            response.add_block(b);
            i = i + 1;
        }
        proof {
            assert(all.take(7) =~= all);
        }
        response
    }
}

} // verus!
