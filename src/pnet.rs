//! The device runtime: identity plus the outgoing queue of delayed responses,
//! and the dispatcher that turns received frames into state changes and
//! scheduled responses.

use crate::address::EthernetAddress;
use crate::block::{Block, BlockModel, DcpBlockView, DevicePropertiesBlock, IpBlock};
use crate::dcp::{
    blocks_len, frame_bytes, identify_response, lemma_blocks_len, spec_parse_frame, spec_response_delay, Dcp,
    DcpView, DCP_BLOCKS_START, DCP_MAC_HELLO_ADDRESS,
};
use crate::device::{Config, ConfigView};
use crate::error::Error;
use crate::frame::{DCPFrame, DcpFrameId};
use crate::header::ServiceId;
use vstd::prelude::*;

verus! {

/// Number of slots of the outgoing queue.
pub const OUTGOING_QUEUE_CAPACITY: usize = 8;

/// Size of an outgoing frame buffer.
pub const MAX_OUTGOING_LENGTH: usize = 255;

/// A response waiting for its send time.
#[derive(Debug, Clone, Copy, PartialEq, Eq)]
pub struct OutgoingPacket {
    pub data: [u8; MAX_OUTGOING_LENGTH],
    pub length: usize,
    pub send_at: u64,
}

/// What the dispatcher did with a received frame.
#[derive(Debug, Clone, Copy, PartialEq, Eq)]
pub enum DcpOutcome {
    /// The frame is no request this device acts on.
    Ignored,
    /// The frame, or the response to it, was dropped.
    Dropped(Error),
    /// The response waits in queue slot `slot` until `send_at`.
    Scheduled { slot: usize, send_at: u64 },
    /// A Set request changed the identity; the network interface must be
    /// rebound when `update_interface` is set.
    Configured { update_interface: bool },
}

/// A device: its identity and the queue of responses to send.
#[derive(Debug, Clone, Copy, PartialEq, Eq)]
pub struct PNet {
    pub config: Config,
    pub outgoing_packets: [Option<OutgoingPacket>; OUTGOING_QUEUE_CAPACITY],
}

/// Slot `s` is the first free slot of `q`.
pub open spec fn is_first_free(q: [Option<OutgoingPacket>; OUTGOING_QUEUE_CAPACITY], s: int) -> bool {
    &&& 0 <= s < OUTGOING_QUEUE_CAPACITY
    &&& q[s] is None
    &&& forall|j: int| 0 <= j < s ==> (#[trigger] q[j]) is Some
}

/// No slot of `q` is free.
pub open spec fn queue_full(q: [Option<OutgoingPacket>; OUTGOING_QUEUE_CAPACITY]) -> bool {
    forall|j: int| 0 <= j < OUTGOING_QUEUE_CAPACITY ==> (#[trigger] q[j]) is Some
}

/// Slot `j` of `q` holds a packet whose send time has come at `now`.
pub open spec fn is_due(q: [Option<OutgoingPacket>; OUTGOING_QUEUE_CAPACITY], j: int, now: u64) -> bool {
    q[j] is Some && q[j].unwrap().send_at <= now
}

/// An Identify request to the multicast address that selects all blocks.
pub open spec fn is_identify_request(v: DcpView) -> bool {
    &&& v.frame_id == DcpFrameId::Request
    &&& v.header.service_id == ServiceId::Identify
    &&& v.destination == DCP_MAC_HELLO_ADDRESS@
    &&& v.blocks.len() == 1
    &&& v.blocks[0].block == BlockModel::All
}

/// A Set request addressed to the device with MAC address `mac`.
pub open spec fn is_set_request(v: DcpView, mac: Seq<u8>) -> bool {
    &&& v.frame_id == DcpFrameId::GetSet
    &&& v.header.service_id == ServiceId::Assign
    &&& v.destination == mac
}

/// The identity after one block of a Set request.
pub open spec fn apply_block(c: ConfigView, b: BlockModel) -> ConfigView {
    match b {
        BlockModel::NameOfStation(n) => ConfigView { name_of_station: n, ..c },
        BlockModel::IpParameter(ip, mask, gw, _) => ConfigView {
            ip_address: ip,
            subnet_mask: mask,
            gateway: gw,
            ..c
        },
        BlockModel::FullIpSuite(ip, mask, gw, _, _) => ConfigView {
            ip_address: ip,
            subnet_mask: mask,
            gateway: gw,
            ..c
        },
        _ => c,
    }
}

/// The identity after the blocks of a Set request, in order.
pub open spec fn apply_set(c: ConfigView, blocks: Seq<DcpBlockView>) -> ConfigView
    decreases blocks.len(),
{
    if blocks.len() == 0 {
        c
    } else {
        apply_block(apply_set(c, blocks.drop_last()), blocks.last().block)
    }
}

/// Whether block `b` assigns IP parameters.
pub open spec fn assigns_ip(b: BlockModel) -> bool {
    b is IpParameter || b is FullIpSuite
}

/// Whether some block of a Set request assigns IP parameters.
pub open spec fn sets_ip(blocks: Seq<DcpBlockView>) -> bool {
    exists|i: int| 0 <= i < blocks.len() && #[trigger] assigns_ip(blocks[i].block)
}

/// `a + b`, or `u64::MAX` when that does not fit.
pub open spec fn saturating_sum(a: u64, b: u64) -> u64 {
    if a + b > u64::MAX {
        u64::MAX
    } else {
        (a + b) as u64
    }
}

impl PNet {
    /// The identity is well-formed and every queued packet fits its buffer.
    pub open spec fn wf(&self) -> bool {
        &&& self.config.wf()
        &&& forall|j: int|
            0 <= j < OUTGOING_QUEUE_CAPACITY && (#[trigger] self.outgoing_packets[j]) is Some
                ==> self.outgoing_packets[j].unwrap().length <= MAX_OUTGOING_LENGTH
    }

    /// A device with identity `config` and an empty queue.
    pub fn new(config: Config) -> (r: Self)
        ensures
            r.config == config,
            config.wf() ==> r.wf(),
            forall|j: int| 0 <= j < OUTGOING_QUEUE_CAPACITY ==> (#[trigger] r.outgoing_packets[j]) is None,
    {
        Self { config, outgoing_packets: [None; OUTGOING_QUEUE_CAPACITY] }
    }

    /// Puts a packet into the first free slot, or fails with `QueueFull`.
    pub fn queue_packet(&mut self, data: [u8; MAX_OUTGOING_LENGTH], length: usize, send_at: u64) -> (r:
        Result<usize, Error>)
        requires
            length <= MAX_OUTGOING_LENGTH,
        ensures
            old(self).wf() ==> final(self).wf(),
            final(self).config == old(self).config,
            match r {
                Ok(s) => is_first_free(old(self).outgoing_packets, s as int)
                    && final(self).outgoing_packets@ == old(self).outgoing_packets@.update(
                    s as int,
                    Some(OutgoingPacket { data, length, send_at }),
                ),
                Err(e) => e == Error::QueueFull && queue_full(old(self).outgoing_packets)
                    && final(self).outgoing_packets == old(self).outgoing_packets,
            },
    {
        let mut i: usize = 0;
        while i < OUTGOING_QUEUE_CAPACITY
            invariant
                i <= OUTGOING_QUEUE_CAPACITY,
                length <= MAX_OUTGOING_LENGTH,
                *self == *old(self),
                forall|j: int| 0 <= j < i ==> (#[trigger] self.outgoing_packets[j]) is Some,
            decreases OUTGOING_QUEUE_CAPACITY - i,
        {
            if self.outgoing_packets[i].is_none() {
                self.outgoing_packets[i] = Some(OutgoingPacket { data, length, send_at });
                assert(self.outgoing_packets@ == old(self).outgoing_packets@.update(
                    i as int,
                    Some(OutgoingPacket { data, length, send_at }),
                ));
                return Ok(i);
            }
            i = i + 1;
        }
        Err(Error::QueueFull)
    }

    /// The first slot from `from` on whose packet is due at `now`.
    pub fn next_due(&self, now: u64, from: usize) -> (r: Option<usize>)
        ensures
            match r {
                Some(s) => from <= s < OUTGOING_QUEUE_CAPACITY && is_due(
                    self.outgoing_packets,
                    s as int,
                    now,
                ) && forall|j: int| from <= j < s ==> !is_due(self.outgoing_packets, j, now),
                None => forall|j: int|
                    from <= j < OUTGOING_QUEUE_CAPACITY ==> !is_due(self.outgoing_packets, j, now),
            },
    {
        let mut i: usize = from;
        while i < OUTGOING_QUEUE_CAPACITY
            invariant
                from <= i,
                forall|j: int| from <= j < i ==> !is_due(self.outgoing_packets, j, now),
            decreases OUTGOING_QUEUE_CAPACITY - i,
        {
            match self.outgoing_packets[i] {
                Some(p) => {
                    if p.send_at <= now {
                        return Some(i);
                    }
                },
                None => {},
            }
            i = i + 1;
        }
        None
    }

    /// Takes the packet out of slot `slot`, freeing it.
    pub fn take_packet(&mut self, slot: usize) -> (r: Option<OutgoingPacket>)
        requires
            slot < OUTGOING_QUEUE_CAPACITY,
        ensures
            old(self).wf() ==> final(self).wf(),
            r == old(self).outgoing_packets[slot as int],
            final(self).config == old(self).config,
            final(self).outgoing_packets@ == old(self).outgoing_packets@.update(slot as int, None),
    {
        let r = self.outgoing_packets[slot];
        self.outgoing_packets[slot] = None;
        r
    }
}


/// What answering the Identify request `v` at time `now` does to device
/// `before`: the encoded Identify response goes into the first free slot, to
/// be sent after the response delay; when it does not fit an outgoing buffer
/// or no slot is free it is dropped and nothing changes.
pub open spec fn identify_handled(
    before: PNet,
    after: PNet,
    v: DcpView,
    now: u64,
    r: DcpOutcome,
) -> bool {
    let response = identify_response(v, before.config@);
    let length = DCP_BLOCKS_START + blocks_len(response.blocks);
    if length > MAX_OUTGOING_LENGTH {
        r == DcpOutcome::Dropped(Error::ResponseTooLong) && after == before
    } else if queue_full(before.outgoing_packets) {
        r == DcpOutcome::Dropped(Error::QueueFull) && after == before
    } else {
        &&& r matches DcpOutcome::Scheduled { slot, send_at }
        &&& is_first_free(before.outgoing_packets, slot as int)
        &&& send_at == saturating_sum(now, spec_response_delay(v.header.response_delay_factor) as u64)
        &&& after.config == before.config
        &&& after.outgoing_packets[slot as int] is Some
        &&& after.outgoing_packets[slot as int].unwrap().length == length
        &&& after.outgoing_packets[slot as int].unwrap().send_at == send_at
        &&& after.outgoing_packets[slot as int].unwrap().data@.take(length) == frame_bytes(response)
        &&& forall|j: int|
            0 <= j < OUTGOING_QUEUE_CAPACITY && j != slot ==> after.outgoing_packets[j]
                == before.outgoing_packets[j]
    }
}

/// What handling the raw frame `frame` at time `now` does to device `before`:
/// a frame that does not parse is dropped with its error; an Identify request
/// is answered (see [`identify_handled`]); a Set request addressed to the
/// device applies its blocks to the identity; anything else is ignored and
/// changes nothing.
pub open spec fn handled(
    before: PNet,
    after: PNet,
    frame: Seq<u8>,
    now: u64,
    r: DcpOutcome,
) -> bool {
    match spec_parse_frame(frame) {
        Err(e) => r == DcpOutcome::Dropped(Error::DcpError(e)) && after == before,
        Ok(v) => if is_identify_request(v) {
            identify_handled(before, after, v, now, r)
        } else if is_set_request(v, before.config@.mac_address) {
            &&& r == DcpOutcome::Configured { update_interface: sets_ip(v.blocks) }
            &&& after.config@ == apply_set(before.config@, v.blocks)
            &&& after.outgoing_packets == before.outgoing_packets
        } else {
            r == DcpOutcome::Ignored && after == before
        },
    }
}

impl PNet {
    /// Applies the blocks of a Set request to the identity; tells whether one
    /// of them assigned IP parameters.
    pub fn apply_set_request(&mut self, request: &Dcp) -> (r: bool)
        requires
            old(self).wf(),
            request.wf(),
        ensures
            final(self).wf(),
            final(self).config@ == apply_set(old(self).config@, request@.blocks),
            final(self).outgoing_packets == old(self).outgoing_packets,
            r == sets_ip(request@.blocks),
    {
        let ghost blocks = request@.blocks;
        let mut update = false;
        let mut i: usize = 0;
        assert(blocks.take(0) =~= Seq::<DcpBlockView>::empty());
        while i < request.number_of_blocks
            invariant
                request.wf(),
                blocks == request@.blocks,
                i <= request.number_of_blocks,
                self.wf(),
                self.outgoing_packets == old(self).outgoing_packets,
                self.config@ == apply_set(old(self).config@, blocks.take(i as int)),
                update == sets_ip(blocks.take(i as int)),
            decreases request.number_of_blocks - i,
        {
            let b = request.blocks[i].unwrap();
            let ghost before = self.config@;
            proof {
                assert(blocks.take(i + 1).drop_last() =~= blocks.take(i as int));
                assert(blocks.take(i + 1).last() == b@);
            }
            match b.block {
                Block::DeviceProperties(DevicePropertiesBlock::NameOfStation(ns)) => {
                    self.config.name_of_station = ns.name;
                    self.config.name_of_station_len = ns.length;
                    assert(self.config@ =~= apply_block(before, b.block@));
                },
                Block::Ip(IpBlock::IpParameter(p)) => {
                    self.config.ip_config.ip_address = p.ip_address;
                    self.config.ip_config.subnet_mask = p.subnet_mask;
                    self.config.ip_config.gateway = p.gateway;
                    update = true;
                },
                Block::Ip(IpBlock::FullIpSuite(s)) => {
                    self.config.ip_config.ip_address = s.ip_address;
                    self.config.ip_config.subnet_mask = s.subnet_mask;
                    self.config.ip_config.gateway = s.gateway;
                    update = true;
                },
                _ => {},
            }
            proof {
                let t = blocks.take(i + 1);
                if assigns_ip(b.block@) {
                    assert(assigns_ip(t[i as int].block));
                }
                if sets_ip(t) && !assigns_ip(b.block@) {
                    let k = choose|k: int| 0 <= k < t.len() && #[trigger] assigns_ip(t[k].block);
                    assert(blocks.take(i as int)[k] == t[k]);
                }
                if sets_ip(blocks.take(i as int)) {
                    let k = choose|k: int|
                        0 <= k < i && #[trigger] assigns_ip(blocks.take(i as int)[k].block);
                    assert(t[k] == blocks.take(i as int)[k]);
                }
            }
            i = i + 1;
        }
        proof {
            assert(blocks.take(i as int) =~= blocks);
        }
        update
    }
}

impl PNet {
    /// Answers the Identify request `request` at time `now`: see [`identify_handled`].
    pub fn schedule_identify_response(&mut self, request: &Dcp, now: u64) -> (r: DcpOutcome)
        requires
            old(self).wf(),
            request.wf(),
        ensures
            final(self).wf(),
            identify_handled(*old(self), *final(self), request@, now, r),
    {
        let response = request.new_hello_response(self);
        let length = DCP_BLOCKS_START + response.header.data_length as usize;
        if length > MAX_OUTGOING_LENGTH {
            return DcpOutcome::Dropped(Error::ResponseTooLong);
        }
        let mut buffer = [0u8; MAX_OUTGOING_LENGTH];
        response.encode_into(&mut buffer);
        proof {
            lemma_blocks_len(response@.blocks);
            assert(frame_bytes(response@).len() == length);
            assert(buffer@.take(length as int) =~= frame_bytes(response@));
        }
        let delay = request.response_delay_time();
        let send_at = now.saturating_add(delay);
        assert(send_at == saturating_sum(now, delay));
        match self.queue_packet(buffer, length, send_at) {
            Ok(slot) => DcpOutcome::Scheduled { slot, send_at },
            Err(e) => DcpOutcome::Dropped(e),
        }
    }
}

impl Dcp {
    /// Whether this is an Identify request to the multicast address that selects all blocks.
    pub fn is_identify_all(&self) -> (r: bool)
        requires
            self.wf(),
        ensures
            r == is_identify_request(self@),
    {
        let is_request = match self.frame_id {
            DcpFrameId::Request => true,
            _ => false,
        };
        let is_identify = match self.header.service_id {
            ServiceId::Identify => true,
            _ => false,
        };
        let selects_all = self.number_of_blocks == 1 && match self.blocks[0] {
            Some(b) => match b.block {
                Block::All => true,
                _ => false,
            },
            None => false,
        };
        is_request && is_identify && self.dst_is_hello() && selects_all
    }

    /// Whether this is a Set request addressed to the device with MAC address `mac`.
    pub fn is_set_request(&self, mac: &EthernetAddress) -> (r: bool)
        ensures
            r == is_set_request(self@, mac.0@),
    {
        let is_get_set = match self.frame_id {
            DcpFrameId::GetSet => true,
            _ => false,
        };
        let is_set = match self.header.service_id {
            ServiceId::Assign => true,
            _ => false,
        };
        is_get_set && is_set && self.destination.same_as(mac)
    }

    /// Handles one received frame at time `current_timestamp`: see [`handled`].
    pub fn handle_frame(pnet: &mut PNet, frame: &DCPFrame, current_timestamp: u64) -> (r:
        DcpOutcome)
        requires
            old(pnet).wf(),
            frame.wf(),
        ensures
            final(pnet).wf(),
            handled(*old(pnet), *final(pnet), frame.buffer@, current_timestamp, r),
    {
        let request = match Dcp::parse(frame) {
            Ok(d) => d,
            Err(e) => return DcpOutcome::Dropped(Error::DcpError(e)),
        };
        if request.is_identify_all() {
            pnet.schedule_identify_response(&request, current_timestamp)
        } else if request.is_set_request(&pnet.config.ip_config.mac_address) {
            let update_interface = pnet.apply_set_request(&request);
            DcpOutcome::Configured { update_interface }
        } else {
            DcpOutcome::Ignored
        }
    }
}

} // verus!
