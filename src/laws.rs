//! Properties that relate the builder, the parser and the dispatcher.

use crate::block::{padded, spec_parse_block, BlockModel, DcpBlockView, IpParameterBlockInfo};
use crate::block_options::DeviceRole;
use crate::bytes::{be16_at, be32_at, lemma_be16_of_bytes, lemma_be32_of_bytes, u16_bytes, u32_bytes};
use crate::bytes::splice;
use crate::dcp::{
    blocks_bytes, blocks_len, canonical_blocks, canonical_frame, frame_bytes, identify_response,
    ip_block_info, ip_unset, lemma_blocks_len, lemma_blocks_len_prefix, lemma_blocks_len_push,
    lemma_wire_len,
    sized_block, spec_parse_blocks, spec_parse_frame, DcpView, MAX_DCP_BLOCK_NUMBER,
};
use crate::device::ConfigView;
use crate::frame::spec_dcp_start;
use crate::header::DCP_HEADER_LENGTH_FIELD;
use crate::pnet::apply_set;
use crate::error::{ParseDcpBlockError, ParseDcpError};
use crate::frame::{DcpFrameId, EthType, ETHER_TYPE_PROFINET};
use crate::header::{header_bytes, spec_parse_header, DcpHeader, ServiceId, ServiceType};
use vstd::prelude::*;

verus! {

proof fn lemma_u16_bytes_at(prefix: Seq<u8>, v: u16, rest: Seq<u8>)
    ensures
        be16_at(prefix + u16_bytes(v) + rest, prefix.len() as int) == v,
{
    lemma_be16_of_bytes(v);
    let s = prefix + u16_bytes(v) + rest;
    assert(s[prefix.len() as int] == u16_bytes(v)[0]);
    assert(s[prefix.len() + 1int] == u16_bytes(v)[1]);
}

/// A well-formed block parses back from its bytes, with the length it takes
/// in a frame.
pub proof fn lemma_block_round_trip(m: BlockModel)
    requires
        m.wf(),
        m.wire_len() <= 0xffff,
    ensures
        spec_parse_block(m.bytes()) == Ok::<_, ParseDcpBlockError>(sized_block(m)),
        m.bytes().len() == 4 + m.declared_len(),
        be16_at(m.bytes(), 2) == m.declared_len(),
{
    let s = m.bytes();
    let decl = m.declared_len();
    let head2 = seq![m.option(), m.suboption()];
    lemma_u16_bytes_at(head2, decl as u16, if m is All {
        Seq::empty()
    } else {
        u16_bytes(m.info()) + m.payload()
    });
    if m is All {
        assert(s =~= head2 + u16_bytes(decl as u16) + Seq::empty());
        assert(be16_at(s, 2) == 0);
    } else {
        assert(s =~= head2 + u16_bytes(decl as u16) + (u16_bytes(m.info()) + m.payload()));
        assert(be16_at(s, 2) == decl);
        lemma_u16_bytes_at(head2 + u16_bytes(decl as u16), m.info(), m.payload());
        assert(s =~= head2 + u16_bytes(decl as u16) + u16_bytes(m.info()) + m.payload());
        assert(be16_at(s, 4) == m.info());
        assert(s.subrange(6, 4 + decl) =~= m.payload());
        let p = m.payload();
        match m {
            BlockModel::MacAddress(a) => {
                assert(p.take(6) =~= a);
            },
            BlockModel::IpParameter(ip, mask, gw, i) => {
                assert(p.subrange(0, 4) =~= ip);
                assert(p.subrange(4, 8) =~= mask);
                assert(p.subrange(8, 12) =~= gw);
            },
            BlockModel::FullIpSuite(ip, mask, gw, dns, i) => {
                assert(p.subrange(0, 4) =~= ip);
                assert(p.subrange(4, 8) =~= mask);
                assert(p.subrange(8, 12) =~= gw);
                assert(p.subrange(12, 16) =~= dns);
            },
            BlockModel::DeviceId(v, d) => {
                lemma_u16_bytes_at(Seq::empty(), v, u16_bytes(d));
                lemma_u16_bytes_at(u16_bytes(v), d, Seq::empty());
                assert(p =~= Seq::empty() + u16_bytes(v) + u16_bytes(d));
                assert(p =~= u16_bytes(v) + u16_bytes(d) + Seq::empty());
            },
            BlockModel::DeviceRole(r) => {
                assert(DeviceRole::spec_from(r.spec_value()) == Some(r));
            },
            _ => {},
        }
    }
}


proof fn lemma_u32_bytes_at(prefix: Seq<u8>, v: u32, rest: Seq<u8>)
    ensures
        be32_at(prefix + u32_bytes(v) + rest, prefix.len() as int) == v,
{
    lemma_be32_of_bytes(v);
    let s = prefix + u32_bytes(v) + rest;
    let n = prefix.len() as int;
    assert(s[n] == u32_bytes(v)[0]);
    assert(s[n + 1] == u32_bytes(v)[1]);
    assert(s[n + 2] == u32_bytes(v)[2]);
    assert(s[n + 3] == u32_bytes(v)[3]);
}

/// A header with a response delay factor of 0 parses back from its bytes.
proof fn lemma_header_round_trip(h: DcpHeader, rest: Seq<u8>)
    requires
        h.response_delay_factor == 0,
    ensures
        spec_parse_header(header_bytes(h) + rest) == Ok::<_, crate::error::ParseDcpHeaderError>(h),
{
    let ids = seq![h.service_id.spec_value(), h.service_type.spec_value()];
    let s = header_bytes(h) + rest;
    assert(ServiceId::spec_from(h.service_id.spec_value()) == Some(h.service_id));
    assert(ServiceType::spec_from(h.service_type.spec_value()) == Some(h.service_type));
    assert(s =~= ids + u32_bytes(h.x_id) + (u16_bytes(0) + u16_bytes(h.data_length) + rest));
    lemma_u32_bytes_at(ids, h.x_id, u16_bytes(0) + u16_bytes(h.data_length) + rest);
    assert(s =~= (ids + u32_bytes(h.x_id)) + u16_bytes(0) + (u16_bytes(h.data_length) + rest));
    lemma_u16_bytes_at(ids + u32_bytes(h.x_id), 0, u16_bytes(h.data_length) + rest);
    assert(s =~= (ids + u32_bytes(h.x_id) + u16_bytes(0)) + u16_bytes(h.data_length) + rest);
    lemma_u16_bytes_at(ids + u32_bytes(h.x_id) + u16_bytes(0), h.data_length, rest);
}

proof fn lemma_blocks_len_even(bs: Seq<DcpBlockView>)
    ensures
        blocks_len(bs) % 2 == 0,
    decreases bs.len(),
{
    if bs.len() > 0 {
        lemma_blocks_len_even(bs.drop_last());
    }
}

/// The bytes of the first `j` blocks open the bytes of all of them.
proof fn lemma_blocks_bytes_prefix(bs: Seq<DcpBlockView>, j: int)
    requires
        0 <= j <= bs.len(),
    ensures
        blocks_bytes(bs).take(blocks_len(bs.take(j))) == blocks_bytes(bs.take(j)),
    decreases bs.len(),
{
    lemma_blocks_len(bs);
    lemma_blocks_len(bs.take(j));
    if j == bs.len() {
        assert(bs.take(j) =~= bs);
        assert(blocks_bytes(bs).take(blocks_len(bs)) =~= blocks_bytes(bs));
    } else {
        let d = bs.drop_last();
        lemma_blocks_bytes_prefix(d, j);
        assert(d.take(j) =~= bs.take(j));
        lemma_blocks_len_prefix(d, j);
        lemma_blocks_len(d);
        assert(blocks_bytes(bs).take(blocks_len(bs.take(j))) =~= blocks_bytes(d).take(
            blocks_len(d.take(j)),
        ));
    }
}

/// In the bytes of a sequence of blocks, as they follow the 26 bytes of
/// framing and header in a frame (see [`frame_bytes`]), block `k` starts where
/// the blocks before it end; when its `4 + L` is odd exactly one zero byte
/// follows it, else none, and the next block starts right after.
pub proof fn lemma_padding(blocks: Seq<DcpBlockView>, k: int)
    requires
        0 <= k < blocks.len(),
    ensures
        ({
            let bb = blocks_bytes(blocks);
            let start = blocks_len(blocks.take(k));
            let n = 4 + blocks[k].block.declared_len();
            let next = blocks_len(blocks.take(k + 1));
            &&& start + n <= bb.len()
            &&& bb.subrange(start, start + n) == blocks[k].block.bytes()
            &&& n % 2 == 1 ==> bb[start + n] == 0 && next == start + n + 1
            &&& n % 2 == 0 ==> next == start + n
        }),
{
    let bs = blocks;
    let region = blocks_bytes(bs);
    let c = blocks_len(bs.take(k));
    let m = bs[k].block;
    let n = 4 + m.declared_len();
    assert(bs.take(k + 1).drop_last() =~= bs.take(k));
    assert(bs.take(k + 1).last() == bs[k]);
    lemma_blocks_len(bs);
    lemma_blocks_len_prefix(bs, k + 1);
    lemma_wire_len(m);
    lemma_blocks_len(bs.take(k));
    lemma_blocks_len(bs.take(k + 1));
    lemma_blocks_bytes_prefix(bs, k + 1);
    lemma_blocks_len_even(bs.take(k));
    let x = blocks_bytes(bs.take(k));
    let w = m.wire_bytes();
    assert(blocks_bytes(bs.take(k + 1)) == x + w);
    assert(blocks_len(bs.take(k + 1)) == c + m.wire_len());
    assert(region.take(c + m.wire_len()) == x + w);
    assert(w.take(n) =~= m.bytes());
    if n % 2 == 1 {
        assert(w[n] == 0);
        assert(region[c + n] == (x + w)[c + n]);
    }
    assert(region.subrange(c, c + n) =~= (x + w).subrange(c, c + n));
    assert((x + w).subrange(c, c + n) =~= w.take(n));
}

/// Block `k` of canonical blocks stands, whole, where the blocks before it end,
/// and parses back.
proof fn lemma_walk_step(bs: Seq<DcpBlockView>, rest: Seq<u8>, k: int)
    requires
        canonical_blocks(bs),
        blocks_len(bs) <= 0xffff,
        0 <= k < bs.len(),
    ensures
        ({
            let c = blocks_len(bs.take(k));
            let m = bs[k].block;
            let n = 4 + m.declared_len();
            &&& c + 4 <= c + n <= blocks_len(bs)
            &&& c + n <= blocks_bytes(bs).len()
            &&& be16_at(blocks_bytes(bs) + rest, c + 2) == m.declared_len()
            &&& (blocks_bytes(bs) + rest).subrange(c, c + n) == m.bytes()
            &&& padded(c + n) == blocks_len(bs.take(k + 1))
            &&& spec_parse_block(m.bytes()) == Ok::<_, ParseDcpBlockError>(bs[k])
            &&& bs.take(k).push(bs[k]) == bs.take(k + 1)
        }),
{
    let region = blocks_bytes(bs);
    let c = blocks_len(bs.take(k));
    let m = bs[k].block;
    let n = 4 + m.declared_len();
    assert(bs[k].block_length == m.wire_len() && m.wf());
    lemma_padding(bs, k);
    lemma_blocks_len(bs);
    lemma_blocks_len_prefix(bs, k + 1);
    lemma_blocks_len_even(bs.take(k));
    lemma_block_round_trip(m);
    lemma_blocks_len(bs.take(k));
    assert(0 <= c && c + n <= region.len());
    assert(region.subrange(c, c + n) == m.bytes());
    assert(region.subrange(c, c + n)[2] == region[c + 2]);
    assert(region.subrange(c, c + n)[3] == region[c + 3]);
    assert((region + rest).subrange(c, c + n) =~= region.subrange(c, c + n));
    assert((region + rest)[c + 2] == region[c + 2]);
    assert((region + rest)[c + 3] == region[c + 3]);
    assert(bs.take(k).push(bs[k]) =~= bs.take(k + 1));
}

/// From block `k` on, the walk over the bytes of canonical blocks finds them
/// all, whatever bytes follow them.
proof fn lemma_walk(bs: Seq<DcpBlockView>, rest: Seq<u8>, k: int)
    requires
        canonical_blocks(bs),
        bs.len() <= MAX_DCP_BLOCK_NUMBER,
        blocks_len(bs) <= 0xffff,
        0 <= k <= bs.len(),
    ensures
        spec_parse_blocks(
            blocks_bytes(bs) + rest,
            blocks_len(bs),
            blocks_len(bs.take(k)),
            k as nat,
            bs.take(k),
        ) == Ok::<_, ParseDcpError>(bs),
    decreases bs.len() - k,
{
    lemma_blocks_len(bs);
    if k == bs.len() {
        assert(bs.take(k) =~= bs);
    } else {
        lemma_walk_step(bs, rest, k);
        lemma_walk(bs, rest, k + 1);
    }
}

/// Where the fields of a canonical frame stand in its bytes.
proof fn lemma_frame_layout(v: DcpView, rest: Seq<u8>)
    requires
        canonical_frame(v),
    ensures
        ({
            let s = frame_bytes(v) + rest;
            &&& frame_bytes(v).len() == 26 + blocks_len(v.blocks)
            &&& be16_at(s, 12) == ETHER_TYPE_PROFINET
            &&& be16_at(s, 14) == v.frame_id.spec_value()
            &&& s.skip(16) == header_bytes(v.header) + (blocks_bytes(v.blocks) + rest)
            &&& s.skip(26) == blocks_bytes(v.blocks) + rest
            &&& s.take(6) == v.destination
            &&& s.subrange(6, 12) == v.source
        }),
{
    let s = frame_bytes(v) + rest;
    let fid = v.frame_id.spec_value();
    let bb = blocks_bytes(v.blocks);
    let hb = header_bytes(v.header);
    let a = v.destination + v.source;
    lemma_blocks_len(v.blocks);
    assert(s =~= a + u16_bytes(ETHER_TYPE_PROFINET) + (u16_bytes(fid) + hb + bb + rest));
    lemma_u16_bytes_at(a, ETHER_TYPE_PROFINET, u16_bytes(fid) + hb + bb + rest);
    assert(s =~= (a + u16_bytes(ETHER_TYPE_PROFINET)) + u16_bytes(fid) + (hb + bb + rest));
    lemma_u16_bytes_at(a + u16_bytes(ETHER_TYPE_PROFINET), fid, hb + bb + rest);
    assert(s.skip(16) =~= hb + (bb + rest));
    assert(s.skip(26) =~= bb + rest);
    assert(s.take(6) =~= v.destination);
    assert(s.subrange(6, 12) =~= v.source);
}

/// Parsing the bytes that the builder writes for a canonical frame gives the
/// frame back, whatever bytes follow it in the buffer.
pub proof fn lemma_parse_build_round_trip(v: DcpView, rest: Seq<u8>)
    requires
        canonical_frame(v),
    ensures
        spec_parse_frame(frame_bytes(v) + rest) == Ok::<_, ParseDcpError>(v),
{
    let bb = blocks_bytes(v.blocks);
    lemma_frame_layout(v, rest);
    assert(DcpFrameId::spec_from(v.frame_id.spec_value()) == Some(v.frame_id));
    lemma_header_round_trip(v.header, bb + rest);
    assert(v.blocks.take(0) =~= Seq::<DcpBlockView>::empty());
    lemma_walk(v.blocks, rest, 0);
}


/// The frame that the encoder leaves at the front of a buffer parses back to
/// the frame it encoded.
pub proof fn lemma_encoded_buffer_parses(v: DcpView, before: Seq<u8>, after: Seq<u8>)
    requires
        canonical_frame(v),
        frame_bytes(v).len() <= before.len(),
        after == splice(before, 0, frame_bytes(v)),
    ensures
        spec_parse_frame(after) == Ok::<_, ParseDcpError>(v),
{
    let rest = before.skip(frame_bytes(v).len() as int);
    assert(after =~= frame_bytes(v) + rest);
    lemma_parse_build_round_trip(v, rest);
}

/// In the bytes of a canonical frame, the DataLength field equals the sum of
/// the on-wire lengths of the blocks, pad bytes included, and that many bytes
/// of blocks follow the header.
pub proof fn lemma_length_consistency(v: DcpView)
    requires
        canonical_frame(v),
    ensures
        be16_at(frame_bytes(v), 24) == blocks_len(v.blocks),
        frame_bytes(v).len() == 26 + blocks_len(v.blocks),
        blocks_bytes(v.blocks).len() == blocks_len(v.blocks),
{
    let bb = blocks_bytes(v.blocks);
    lemma_frame_layout(v, Seq::empty());
    lemma_blocks_len(v.blocks);
    let s = frame_bytes(v);
    assert(s =~= s + Seq::<u8>::empty());
    let h = v.header;
    let pre = seq![h.service_id.spec_value(), h.service_type.spec_value()] + u32_bytes(h.x_id)
        + u16_bytes(0);
    assert(s.skip(16) =~= pre + u16_bytes(h.data_length) + bb);
    lemma_u16_bytes_at(pre, h.data_length, bb);
    assert(s[24] == s.skip(16)[8]);
    assert(s[25] == s.skip(16)[9]);
}

/// The IP parameters of an Identify response carry BlockInfo IpNotSet exactly
/// when address, mask and gateway are all 0.0.0.0, and IpSetViaSetRequest otherwise.
pub proof fn lemma_identify_block_info(request: DcpView, c: ConfigView)
    ensures
        identify_response(request, c).blocks[6].block == BlockModel::IpParameter(
            c.ip_address,
            c.subnet_mask,
            c.gateway,
            ip_block_info(c),
        ),
        ip_block_info(c) == IpParameterBlockInfo::IpNotSet <==> ip_unset(c),
        ip_block_info(c) != IpParameterBlockInfo::IpNotSet ==> ip_block_info(c)
            == IpParameterBlockInfo::IpSetViaSetRequest,
{
}

/// After a Set request whose last block assigns IP parameters that are not all
/// 0.0.0.0, Identify responses carry BlockInfo IpSetViaSetRequest.
pub proof fn lemma_set_ip_block_info(c: ConfigView, blocks: Seq<DcpBlockView>)
    requires
        blocks.len() > 0,
        blocks.last().block matches BlockModel::IpParameter(ip, mask, gw, _) && !(ip == seq![
            0u8,
            0u8,
            0u8,
            0u8,
        ] && mask == seq![0u8, 0u8, 0u8, 0u8] && gw == seq![0u8, 0u8, 0u8, 0u8]),
    ensures
        ip_block_info(apply_set(c, blocks)) == IpParameterBlockInfo::IpSetViaSetRequest,
{
}

/// How many blocks the walk hands to the block parser.
pub open spec fn block_parses(region: Seq<u8>, data_length: int, cursor: int, count: nat) -> nat
    decreases MAX_DCP_BLOCK_NUMBER - count,
{
    if cursor >= data_length || count >= MAX_DCP_BLOCK_NUMBER || cursor + 4 > region.len() {
        0
    } else {
        let end = cursor + 4 + be16_at(region, cursor + 2);
        if end > data_length || end > region.len() {
            0
        } else {
            match spec_parse_block(region.subrange(cursor, end)) {
                Err(_) => 1,
                Ok(_) => 1 + block_parses(region, data_length, padded(end), count + 1),
            }
        }
    }
}

/// How many blocks parsing the raw frame `s` hands to the block parser.
pub open spec fn frame_block_parses(s: Seq<u8>) -> nat {
    let start = spec_dcp_start(s);
    if s.len() < start + DCP_HEADER_LENGTH_FIELD {
        0
    } else {
        block_parses(
            s.skip(start + DCP_HEADER_LENGTH_FIELD),
            be16_at(s, start + 8) as int,
            0,
            0,
        )
    }
}

proof fn lemma_block_parses_bounded(region: Seq<u8>, data_length: int, cursor: int, count: nat)
    requires
        count <= MAX_DCP_BLOCK_NUMBER,
    ensures
        block_parses(region, data_length, cursor, count) <= MAX_DCP_BLOCK_NUMBER - count,
    decreases MAX_DCP_BLOCK_NUMBER - count,
{
    if !(cursor >= data_length || count >= MAX_DCP_BLOCK_NUMBER || cursor + 4 > region.len()) {
        let end = cursor + 4 + be16_at(region, cursor + 2);
        lemma_block_parses_bounded(region, data_length, padded(end), count + 1);
    }
}

/// No frame, of whatever length, makes the parser parse more than
/// `MAX_DCP_BLOCK_NUMBER` blocks.
pub proof fn lemma_bounded_parse(s: Seq<u8>)
    ensures
        frame_block_parses(s) <= MAX_DCP_BLOCK_NUMBER,
{
    let start = spec_dcp_start(s);
    if s.len() >= start + DCP_HEADER_LENGTH_FIELD {
        lemma_block_parses_bounded(
            s.skip(start + DCP_HEADER_LENGTH_FIELD),
            be16_at(s, start + 8) as int,
            0,
            0,
        );
    }
}


/// A frame with no blocks, untagged, with response delay factor 0 and data
/// length 0, is canonical; appending a block that records its length keeps it
/// so, the data length growing by that length. So every frame built from
/// `Dcp::new` and `Dcp::add_block` of `DcpBlock::new` blocks is canonical.
pub proof fn lemma_builder_keeps_canonical(v: DcpView, b: DcpBlockView)
    requires
        v.destination.len() == 6,
        v.source.len() == 6,
        v.eth_type == EthType::Profinet,
        !v.is_vlan,
        v.header.response_delay_factor == 0,
    ensures
        v.blocks.len() == 0 && v.header.data_length == 0 ==> canonical_frame(v),
        canonical_frame(v) && v.blocks.len() < MAX_DCP_BLOCK_NUMBER && b.block.wf()
            && b.block_length == b.block.wire_len() && v.header.data_length + b.block_length
            <= 0xffff ==> canonical_frame(
            DcpView {
                blocks: v.blocks.push(b),
                header: DcpHeader {
                    data_length: (v.header.data_length + b.block_length) as u16,
                    ..v.header
                },
                ..v
            },
        ),
{
    if v.blocks.len() == 0 {
        assert(canonical_blocks(v.blocks));
    }
    if canonical_frame(v) && v.blocks.len() < MAX_DCP_BLOCK_NUMBER && b.block.wf()
        && b.block_length == b.block.wire_len() && v.header.data_length + b.block_length <= 0xffff {
        lemma_blocks_len_push(v.blocks, b);
        let bs = v.blocks.push(b);
        assert forall|i: int| 0 <= i < bs.len() implies bs[i].block_length == bs[i].block.wire_len()
            && bs[i].block.wf() by {
            if i < v.blocks.len() {
                assert(bs[i] == v.blocks[i]);
            }
        }
    }
}

} // verus!
