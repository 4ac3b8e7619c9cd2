use profinet_rs::address::{EthernetAddress, Ipv4Address};
use profinet_rs::block::{
    Block, DcpBlock, DevicePropertiesBlock, IpBlock, IpParameter, IpParameterBlockInfo,
    NameOfStation,
};
use profinet_rs::dcp::{Dcp, DCP_MAC_HELLO_ADDRESS};
use profinet_rs::device::{Config, IpConfig};
use profinet_rs::frame::{DCPFrame, DcpFrameId, EthType};
use profinet_rs::header::{DcpHeader, ServiceId, ServiceType};
use profinet_rs::pnet::PNet;

const HELLO_REQUEST: [u8; 64] = [
    0x01, 0x0e, 0xcf, 0x00, 0x00, 0x00, 0x52, 0x54, 0x00, 0x8a, 0x3b, 0xa5, 0x88, 0x92, 0xfe, 0xfe,
    0x05, 0x00, 0x00, 0x00, 0x00, 0x05, 0x00, 0xc0, 0x00, 0x04, 0xff, 0xff, 0x00, 0x00, 0x00, 0x00,
    0x00, 0x00, 0x00, 0x00, 0x00, 0x00, 0x00, 0x00, 0x00, 0x00, 0x00, 0x00, 0x00, 0x00, 0x00, 0x00,
    0x00, 0x00, 0x00, 0x00, 0x00, 0x00, 0x00, 0x00, 0x00, 0x00, 0x00, 0x00, 0x00, 0x00, 0x00, 0x00,
];

const VLAN_HELLO_REQUEST: [u8; 34] = [
    0x01, 0x0e, 0xcf, 0x00, 0x00, 0x00, 0xa8, 0x5e, 0x45, 0x15, 0x85, 0x46, 0x81, 0x00, 0x00, 0x00,
    0x88, 0x92, 0xfe, 0xfe, 0x05, 0x00, 0x00, 0x00, 0x00, 0x01, 0x00, 0x01, 0x00, 0x04, 0xff, 0xff,
    0x00, 0x00,
];

const IDENTIFY_RESPONSE: [u8; 112] = [
    0x52, 0x54, 0x00, 0x8a, 0x3b, 0xa5, 0x8c, 0xf3, 0x19, 0x45, 0x01, 0x63, 0x81, 0x00, 0x00, 0x00,
    0x88, 0x92, 0xfe, 0xff, 0x05, 0x01, 0x00, 0x00, 0x01, 0x66, 0x00, 0x00, 0x00, 0x52, 0x02, 0x05,
    0x00, 0x04, 0x00, 0x00, 0x02, 0x07, 0x02, 0x01, 0x00, 0x09, 0x00, 0x00, 0x53, 0x37, 0x2d, 0x31,
    0x32, 0x30, 0x30, 0x00, 0x02, 0x02, 0x00, 0x0c, 0x00, 0x00, 0x70, 0x6c, 0x63, 0x78, 0x62, 0x31,
    0x64, 0x30, 0x65, 0x64, 0x02, 0x03, 0x00, 0x06, 0x00, 0x00, 0x00, 0x2a, 0x01, 0x0d, 0x02, 0x04,
    0x00, 0x04, 0x00, 0x00, 0x02, 0x00, 0x02, 0x07, 0x00, 0x04, 0x00, 0x00, 0x00, 0x64, 0x01, 0x02,
    0x00, 0x0e, 0x00, 0x01, 0xc0, 0xa8, 0x00, 0x01, 0xff, 0xff, 0xff, 0x00, 0x00, 0x00, 0x00, 0x00,
];

#[test]
fn mod_test_non_vlan() {
    let raw_packet = HELLO_REQUEST;

    let frame = DCPFrame::new_checked(&raw_packet);

    assert_eq!(frame.is_vlan, false);
    assert_eq!(
        frame.destination(),
        EthernetAddress::from_bytes(&[0x01, 0x0e, 0xcf, 0x00, 0x00, 0x00])
    );
    assert_eq!(
        frame.source(),
        EthernetAddress::from_bytes(&[0x52, 0x54, 0x00, 0x8a, 0x3b, 0xa5])
    );
    assert_eq!(frame.eth_type(), EthType::Profinet);
}

#[test]
fn mod_test_vlan() {
    let raw_packet = VLAN_HELLO_REQUEST;

    let frame = DCPFrame::new_checked(&raw_packet);

    assert_eq!(frame.is_vlan, true);
    assert_eq!(
        frame.destination(),
        EthernetAddress::from_bytes(&[0x01, 0x0e, 0xcf, 0x00, 0x00, 0x00])
    );
    assert_eq!(
        frame.source(),
        EthernetAddress::from_bytes(&[0xa8, 0x5e, 0x45, 0x15, 0x85, 0x46])
    );
    assert_eq!(frame.eth_type(), EthType::Profinet);
}

#[test]
fn test_dcp_hellp() {
    let raw_packet = HELLO_REQUEST;

    let frame = DCPFrame::new_checked(&raw_packet);
    let dcp = Dcp::parse(&frame);

    assert!(dcp.is_ok());
    let dcp = dcp.unwrap();

    assert_eq!(
        dcp.destination,
        EthernetAddress::from_bytes(&[0x01, 0x0e, 0xcf, 0x00, 0x00, 0x00])
    );
    assert_eq!(
        dcp.source,
        EthernetAddress::from_bytes(&[0x52, 0x54, 0x00, 0x8a, 0x3b, 0xa5])
    );
    assert_eq!(dcp.eth_type, EthType::Profinet);
    assert_eq!(dcp.header.service_id, ServiceId::Identify);

    let block = dcp.blocks[0].clone().unwrap();

    assert_eq!(block.block, Block::All);
}

#[test]
fn test_dcp_hello() {
    let raw_packet = HELLO_REQUEST;

    let frame = DCPFrame::new_checked(&raw_packet);
    let dcp = Dcp::parse(&frame);

    assert!(dcp.is_ok());
    let dcp = dcp.unwrap();

    assert_eq!(
        dcp.destination,
        EthernetAddress::from_bytes(&[0x01, 0x0e, 0xcf, 0x00, 0x00, 0x00])
    );
    assert_eq!(
        dcp.source,
        EthernetAddress::from_bytes(&[0x52, 0x54, 0x00, 0x8a, 0x3b, 0xa5])
    );
    assert_eq!(dcp.eth_type, EthType::Profinet);
    assert_eq!(dcp.header.service_id, ServiceId::Identify);
    assert_eq!(dcp.number_of_blocks, 1);

    let block = dcp.blocks[0].clone().unwrap();

    assert_eq!(block.block, Block::All);
}

#[test]
fn mod_test_dcp_response() {
    let raw_packet = IDENTIFY_RESPONSE;

    let frame = DCPFrame::new_checked(&raw_packet);
    let dcp = Dcp::parse(&frame);

    if let Err(e) = &dcp {
        println!("{:#?}", e);
    }

    assert!(dcp.is_ok());
    let dcp = dcp.unwrap();

    let name_of_station = dcp.blocks[2].clone().unwrap().block;

    assert_eq!(
        name_of_station,
        Block::DeviceProperties(DevicePropertiesBlock::NameOfStation(NameOfStation::from_str(
            "plcxb1d0ed"
        )))
    );

    let ip = dcp.blocks[6].clone().unwrap().block;

    assert_eq!(
        ip,
        Block::Ip(IpBlock::IpParameter(IpParameter {
            ip_address: Ipv4Address::new(192, 168, 0, 1),
            subnet_mask: Ipv4Address::new(255, 255, 255, 0),
            gateway: Ipv4Address::new(0, 0, 0, 0),
            block_info: IpParameterBlockInfo::IpSetViaSetRequest
        }))
    )
}

#[test]
fn test_dcp_encoding() {
    let mut dcp = Dcp::new(
        EthernetAddress::from_bytes(&[0x01, 0x0e, 0xcf, 0x00, 0x00, 0x00]),
        EthernetAddress::from_bytes(&[0x00, 0x00, 0x23, 0x53, 0x4e, 0xfe]),
        DcpHeader::new(ServiceId::Identify, ServiceType::Success, 1, 0),
        DcpFrameId::Hello,
    );

    dcp.add_block(DcpBlock::new(Block::DeviceProperties(
        DevicePropertiesBlock::DeviceOptions,
    )));

    dcp.add_block(DcpBlock::new(Block::DeviceProperties(
        DevicePropertiesBlock::NameOfStation(NameOfStation::from_str("my cool device")),
    )));

    let mut buffer = [0; 128];
    dcp.encode_into(&mut buffer);

    assert_eq!(
        buffer,
        [
                1, 14, 207, 0, 0, 0, 0, 0, 35, 83, 78, 254, 136, 146, 254, 252, 5, 1, 0, 0, 0, 1,
                0, 0, 0, 28, 2, 5, 0, 4, 0, 0, 2, 7, 2, 2, 0, 16, 0, 0, 109, 121, 32, 99, 111, 111,
                108, 32, 100, 101, 118, 105, 99, 101, 0, 0, 0, 0, 0, 0, 0, 0, 0, 0, 0, 0, 0, 0, 0,
                0, 0, 0, 0, 0, 0, 0, 0, 0, 0, 0, 0, 0, 0, 0, 0, 0, 0, 0, 0, 0, 0, 0, 0, 0, 0, 0, 0,
                0, 0, 0, 0, 0, 0, 0, 0, 0, 0, 0, 0, 0, 0, 0, 0, 0, 0, 0, 0, 0, 0, 0, 0, 0, 0, 0, 0,
                0, 0, 0
            ]
    );
}

#[test]
fn test_hello_response() {
    let ip_config = IpConfig::new_not_set(EthernetAddress::from_bytes(&[
        0x00, 0x00, 0x23, 0x53, 0x4e, 0xfe,
    ]));

    let config = Config::new("test", "asd", ip_config);
    let pnet = PNet::new(config);

    let dcp_hello = Dcp::new(
        EthernetAddress::from_bytes(&DCP_MAC_HELLO_ADDRESS),
        EthernetAddress::from_bytes(&[0x02, 0x12, 0x23, 0x53, 0x4e, 0xfa]),
        DcpHeader::new(ServiceId::Identify, ServiceType::Success, 1, 0),
        DcpFrameId::Hello,
    );

    let dcp_response = dcp_hello.new_hello_response(&pnet);

    assert_eq!(
        dcp_response.destination,
        EthernetAddress::from_bytes(&[0x02, 0x12, 0x23, 0x53, 0x4e, 0xfa])
    );
    assert_eq!(
        dcp_response.source,
        EthernetAddress::from_bytes(&[0x00, 0x00, 0x23, 0x53, 0x4e, 0xfe])
    );

    assert_eq!(dcp_response.eth_type, EthType::Profinet);
    assert_eq!(dcp_response.frame_id, DcpFrameId::Response);
    assert_eq!(dcp_response.header.service_id, ServiceId::Identify);
    assert_eq!(dcp_response.header.service_type, ServiceType::Success);

    dcp_response
        .blocks
        .iter()
        .filter_map(|b| *b)
        .for_each(|b| match b.block {
            Block::Ip(ip) => match ip {
                IpBlock::IpParameter(ip) => {
                    assert_eq!(ip.block_info, IpParameterBlockInfo::IpNotSet);
                    assert_eq!(ip.ip_address.0, [0, 0, 0, 0]);
                    assert_eq!(ip.subnet_mask.0, [0, 0, 0, 0]);
                    assert_eq!(ip.gateway.0, [0, 0, 0, 0])
                }
                _ => panic!("Response shouldn't contain anything but 'IpParameter' block"),
            },
            Block::All => panic!("Response shouldn't contain an 'ALL' block"),
            _ => (),
        })
}
