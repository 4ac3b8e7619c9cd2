use profinet_rs::address::{EthernetAddress, Ipv4Address};
use profinet_rs::block::{Block, DcpBlock, DeviceInstance, DevicePropertiesBlock, NameOfStation};
use profinet_rs::block_options::DeviceRole;
use profinet_rs::dcp::{response_delay, Dcp};
use profinet_rs::device::{Config, IpConfig};
use profinet_rs::error::{Error, ParseDcpBlockError, ParseDcpError};
use profinet_rs::frame::{DCPFrame, DcpFrameId};
use profinet_rs::header::{DcpHeader, ServiceId, ServiceType};
use profinet_rs::pnet::{DcpOutcome, PNet, OUTGOING_QUEUE_CAPACITY};

const DEVICE_MAC: [u8; 6] = [0x00, 0x00, 0x23, 0x53, 0x4e, 0xfe];
const CONTROLLER_MAC: [u8; 6] = [0x52, 0x54, 0x00, 0x8a, 0x3b, 0xa5];

fn device() -> PNet {
    let mut ip_config = IpConfig::new_not_set(EthernetAddress(DEVICE_MAC));
    ip_config.ip_address = Ipv4Address::new(192, 168, 0, 1);
    ip_config.subnet_mask = Ipv4Address::new(255, 255, 255, 0);
    let mut config = Config::new("plcxb1d0ed", "S7-1200", ip_config);
    config.device_role = DeviceRole::IODevice;
    config.vendor_id = 0x1337;
    config.device_id = 0x6969;
    config.device_instance = DeviceInstance { high: 0x00, low: 0x2a };
    PNet::new(config)
}

/// A 64-byte Identify request with the all-selector.
fn identify_request(x_id: u32, rdf: u16) -> [u8; 64] {
    let mut f = [0u8; 64];
    f[0..6].copy_from_slice(&[0x01, 0x0e, 0xcf, 0x00, 0x00, 0x00]);
    f[6..12].copy_from_slice(&CONTROLLER_MAC);
    f[12..16].copy_from_slice(&[0x88, 0x92, 0xfe, 0xfe]);
    f[16] = 0x05;
    f[17] = 0x00;
    f[18..22].copy_from_slice(&x_id.to_be_bytes());
    f[22..24].copy_from_slice(&rdf.to_be_bytes());
    f[24..26].copy_from_slice(&[0x00, 0x04]);
    f[26..30].copy_from_slice(&[0xff, 0xff, 0x00, 0x00]);
    f
}

/// A Set request carrying the given blocks.
fn set_request(blocks: &[u8]) -> Vec<u8> {
    let mut f = Vec::new();
    f.extend_from_slice(&DEVICE_MAC);
    f.extend_from_slice(&CONTROLLER_MAC);
    f.extend_from_slice(&[0x88, 0x92, 0xfe, 0xfd]);
    f.extend_from_slice(&[0x04, 0x00, 0x00, 0x00, 0x00, 0x07, 0x00, 0x00]);
    f.extend_from_slice(&(blocks.len() as u16).to_be_bytes());
    f.extend_from_slice(blocks);
    while f.len() < 60 {
        f.push(0);
    }
    f
}

#[test]
fn hello_discovery_parse() {
    let mut raw = identify_request(5, 0x00c0);
    raw[26..30].copy_from_slice(&[0xff, 0xff, 0x00, 0x00]);
    let dcp = Dcp::parse(&DCPFrame::new_checked(&raw)).unwrap();
    assert_eq!(dcp.destination.0, [0x01, 0x0e, 0xcf, 0x00, 0x00, 0x00]);
    assert_eq!(dcp.source.0, CONTROLLER_MAC);
    assert_eq!(dcp.frame_id, DcpFrameId::Request);
    assert_eq!(dcp.header.service_id, ServiceId::Identify);
    assert_eq!(dcp.header.x_id, 5);
    assert_eq!(dcp.header.response_delay_factor, 192);
    assert_eq!(dcp.header.data_length, 4);
    assert_eq!(dcp.number_of_blocks, 1);
    assert_eq!(dcp.blocks[0].unwrap().block, Block::All);
    assert_eq!(dcp.blocks[0].unwrap().block_length, 4);
}

#[test]
fn identify_response_build() {
    let mut pnet = device();
    let raw = identify_request(0x0000_0166, 0);
    let outcome = Dcp::handle_frame(&mut pnet, &DCPFrame::new_checked(&raw), 1000);
    let slot = match outcome {
        DcpOutcome::Scheduled { slot, .. } => slot,
        other => panic!("unexpected outcome {:?}", other),
    };
    let packet = pnet.outgoing_packets[slot].unwrap();
    let expected: Vec<u8> = [
        &CONTROLLER_MAC[..],
        &DEVICE_MAC[..],
        &[0x88, 0x92, 0xfe, 0xff][..],
        &[0x05, 0x01, 0x00, 0x00, 0x01, 0x66, 0x00, 0x00, 0x00, 0x52][..],
        // DeviceOptions
        &[0x02, 0x05, 0x00, 0x04, 0x00, 0x00, 0x02, 0x07][..],
        // NameOfStation
        &[0x02, 0x02, 0x00, 0x0c, 0x00, 0x00][..],
        b"plcxb1d0ed",
        // DeviceVendor, odd: one pad byte
        &[0x02, 0x01, 0x00, 0x09, 0x00, 0x00][..],
        b"S7-1200",
        &[0x00][..],
        // DeviceRole
        &[0x02, 0x04, 0x00, 0x04, 0x00, 0x00, 0x00, 0x00][..],
        // DeviceId
        &[0x02, 0x03, 0x00, 0x06, 0x00, 0x00, 0x13, 0x37, 0x69, 0x69][..],
        // DeviceInstance
        &[0x02, 0x07, 0x00, 0x04, 0x00, 0x00, 0x00, 0x2a][..],
        // IpParameter, set
        &[0x01, 0x02, 0x00, 0x0e, 0x00, 0x01][..],
        &[192, 168, 0, 1, 255, 255, 255, 0, 0, 0, 0, 0][..],
    ]
    .concat();
    assert_eq!(expected.len(), 108);
    assert_eq!(packet.length, 108);
    assert_eq!(&packet.data[..108], &expected[..]);
    assert!(packet.data[108..].iter().all(|b| *b == 0));

    // The response parses back to a frame with the same header and blocks.
    let back = Dcp::parse(&DCPFrame::new_checked(&packet.data[..packet.length])).unwrap();
    assert_eq!(back.number_of_blocks, 7);
    assert_eq!(back.header.x_id, 0x166);
    assert_eq!(back.header.data_length, 0x52);
}

#[test]
fn set_ip_round_trip() {
    let mut pnet = device();
    let raw = set_request(&[
        0x01, 0x02, 0x00, 0x0e, 0x00, 0x01, 192, 168, 1, 50, 255, 255, 255, 0, 192, 168, 1, 1,
    ]);
    let outcome = Dcp::handle_frame(&mut pnet, &DCPFrame::new_checked(&raw), 0);
    assert_eq!(outcome, DcpOutcome::Configured { update_interface: true });
    assert_eq!(pnet.config.ip_config.ip_address, Ipv4Address::new(192, 168, 1, 50));
    assert_eq!(pnet.config.ip_config.subnet_mask, Ipv4Address::new(255, 255, 255, 0));
    assert_eq!(pnet.config.ip_config.gateway, Ipv4Address::new(192, 168, 1, 1));
    assert!(pnet.outgoing_packets.iter().all(|p| p.is_none()));
}

#[test]
fn set_name_of_station_does_not_touch_interface() {
    let mut pnet = device();
    let mut blocks = vec![0x02, 0x02, 0x00, 0x07, 0x00, 0x01];
    blocks.extend_from_slice(b"dev-2");
    blocks.push(0);
    let raw = set_request(&blocks);
    let outcome = Dcp::handle_frame(&mut pnet, &DCPFrame::new_checked(&raw), 0);
    assert_eq!(outcome, DcpOutcome::Configured { update_interface: false });
    assert_eq!(pnet.config.name_of_station_len, 5);
    assert_eq!(&pnet.config.name_of_station[..5], b"dev-2");
    assert_eq!(pnet.config.ip_config.ip_address, Ipv4Address::new(192, 168, 0, 1));
}

#[test]
fn odd_length_padding() {
    let mut dcp = Dcp::new(
        EthernetAddress(CONTROLLER_MAC),
        EthernetAddress(DEVICE_MAC),
        DcpHeader::new(ServiceId::Identify, ServiceType::Success, 9, 0),
        DcpFrameId::Response,
    );
    let name = NameOfStation::from_str("station-13chr");
    assert_eq!(name.length, 13);
    dcp.add_block(DcpBlock::new(Block::DeviceProperties(DevicePropertiesBlock::NameOfStation(
        name,
    ))));
    dcp.add_block(DcpBlock::new(Block::DeviceProperties(DevicePropertiesBlock::DeviceOptions)));
    assert_eq!(dcp.blocks[0].unwrap().block_length, 20);
    assert_eq!(dcp.header.data_length, 28);
    assert_eq!(dcp.length(), 54);
    let mut buffer = [0xaa; 64];
    dcp.encode_into(&mut buffer);
    let start = 26;
    // 19 bytes of block, then the pad byte, then the next block.
    assert_eq!(&buffer[start..start + 4], &[0x02, 0x02, 0x00, 0x0f]);
    assert_eq!(buffer[start + 19], 0);
    assert_eq!(&buffer[start + 20..start + 24], &[0x02, 0x05, 0x00, 0x04]);
    assert_eq!(buffer[start + 28], 0xaa);
}

#[test]
fn response_scheduling() {
    assert_eq!(response_delay(0), 400);
    assert_eq!(response_delay(1), 400);
    assert_eq!(response_delay(7), 1000);
    assert_eq!(response_delay(200), 3000);
    assert_eq!(response_delay(0xffff), 656_000);

    let mut pnet = device();
    let now = 5_000u64;
    for (rdf, delay) in [(0u16, 400u64), (7, 1000), (200, 3000)] {
        let raw = identify_request(1, rdf);
        let outcome = Dcp::handle_frame(&mut pnet, &DCPFrame::new_checked(&raw), now);
        match outcome {
            DcpOutcome::Scheduled { send_at, slot } => {
                assert_eq!(send_at, now + delay);
                assert_eq!(pnet.outgoing_packets[slot].unwrap().send_at, now + delay);
            }
            other => panic!("unexpected outcome {:?}", other),
        }
    }
    // Slots fill in order; the earliest due packet is found first.
    assert_eq!(pnet.next_due(now + 399, 0), None);
    assert_eq!(pnet.next_due(now + 400, 0), Some(0));
    assert_eq!(pnet.next_due(now + 3000, 1), Some(1));
    assert!(pnet.take_packet(0).is_some());
    assert_eq!(pnet.next_due(now + 400, 0), None);
}

#[test]
fn response_time_saturates() {
    let mut pnet = device();
    let raw = identify_request(1, 7);
    let outcome = Dcp::handle_frame(&mut pnet, &DCPFrame::new_checked(&raw), u64::MAX - 10);
    assert_eq!(outcome, DcpOutcome::Scheduled { slot: 0, send_at: u64::MAX });
}

#[test]
fn unknown_option_is_rejected_and_frame_dropped() {
    let mut pnet = device();
    let mut raw = identify_request(1, 0);
    raw[26] = 0x7e;
    let before = pnet;
    let outcome = Dcp::handle_frame(&mut pnet, &DCPFrame::new_checked(&raw), 0);
    assert_eq!(
        outcome,
        DcpOutcome::Dropped(Error::DcpError(ParseDcpError::BlockError(
            ParseDcpBlockError::InvalidBlockOption
        )))
    );
    assert_eq!(pnet, before);
    assert_eq!(
        DcpBlock::parse_block(&[0x7e, 0x01, 0x00, 0x02, 0x00, 0x00]),
        Err(ParseDcpBlockError::InvalidBlockOption)
    );
}

#[test]
fn queue_full_drops_response() {
    let mut pnet = device();
    let raw = identify_request(1, 0);
    for i in 0..OUTGOING_QUEUE_CAPACITY {
        let outcome = Dcp::handle_frame(&mut pnet, &DCPFrame::new_checked(&raw), 0);
        assert_eq!(outcome, DcpOutcome::Scheduled { slot: i, send_at: 400 });
    }
    let before = pnet;
    let outcome = Dcp::handle_frame(&mut pnet, &DCPFrame::new_checked(&raw), 0);
    assert_eq!(outcome, DcpOutcome::Dropped(Error::QueueFull));
    assert_eq!(pnet, before);
}

#[test]
fn too_long_response_is_dropped() {
    let mut pnet = device();
    let long_name = "n".repeat(240);
    let config = Config::new(&long_name, "vendor", pnet.config.ip_config);
    pnet.config = config;
    let raw = identify_request(1, 0);
    let before = pnet;
    let outcome = Dcp::handle_frame(&mut pnet, &DCPFrame::new_checked(&raw), 0);
    assert_eq!(outcome, DcpOutcome::Dropped(Error::ResponseTooLong));
    assert_eq!(pnet, before);
}

#[test]
fn other_requests_are_ignored() {
    let mut pnet = device();
    let mut raw = identify_request(1, 0);
    // Identify sent to another multicast address.
    raw[5] = 0x01;
    let before = pnet;
    assert_eq!(
        Dcp::handle_frame(&mut pnet, &DCPFrame::new_checked(&raw), 0),
        DcpOutcome::Ignored
    );
    assert_eq!(pnet, before);
}

#[test]
fn set_for_another_device_is_ignored() {
    let mut pnet = device();
    let mut raw = set_request(&[
        0x01, 0x02, 0x00, 0x0e, 0x00, 0x01, 192, 168, 1, 50, 255, 255, 255, 0, 192, 168, 1, 1,
    ]);
    raw[5] = 0xff;
    let before = pnet;
    let outcome = Dcp::handle_frame(&mut pnet, &DCPFrame::new_checked(&raw), 0);
    assert_eq!(outcome, DcpOutcome::Ignored);
    assert_eq!(pnet, before);
}
