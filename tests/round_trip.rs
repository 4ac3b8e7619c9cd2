use profinet_rs::address::{EthernetAddress, Ipv4Address};
use profinet_rs::block::{
    Block, DcpBlock, DeviceId, DeviceInstance, DevicePropertiesBlock, DeviceVendor, FullIpSuite,
    IpBlock, IpParameter, IpParameterBlockInfo, MacAddress, NameOfStation,
};
use profinet_rs::block_options::DeviceRole;
use profinet_rs::dcp::Dcp;
use profinet_rs::device::{Config, IpConfig};
use profinet_rs::frame::{DCPFrame, DcpFrameId, EthType};
use profinet_rs::header::{DcpHeader, ServiceId, ServiceType};
use profinet_rs::pnet::{DcpOutcome, PNet};

fn every_block() -> Vec<Block> {
    vec![
        Block::Ip(IpBlock::MacAddress(MacAddress { address: EthernetAddress([1, 2, 3, 4, 5, 6]) })),
        Block::Ip(IpBlock::IpParameter(IpParameter {
            ip_address: Ipv4Address::new(10, 0, 0, 2),
            subnet_mask: Ipv4Address::new(255, 0, 0, 0),
            gateway: Ipv4Address::new(10, 0, 0, 1),
            block_info: IpParameterBlockInfo::IpSetViaDhcp,
        })),
        Block::Ip(IpBlock::FullIpSuite(FullIpSuite {
            ip_address: Ipv4Address::new(10, 0, 0, 3),
            subnet_mask: Ipv4Address::new(255, 255, 0, 0),
            gateway: Ipv4Address::new(10, 0, 0, 1),
            dns: Ipv4Address::new(8, 8, 8, 8),
            block_info: IpParameterBlockInfo::IpSetViaSetRequest,
        })),
        Block::DeviceProperties(DevicePropertiesBlock::DeviceVendor(DeviceVendor::from_str("acme"))),
        Block::DeviceProperties(DevicePropertiesBlock::NameOfStation(NameOfStation::from_str("io-7"))),
        Block::DeviceProperties(DevicePropertiesBlock::DeviceId(DeviceId {
            vendor_id: 0x002a,
            device_id: 0x010d,
        })),
        Block::DeviceProperties(DevicePropertiesBlock::DeviceRole(DeviceRole::IOSupervisor)),
        Block::DeviceProperties(DevicePropertiesBlock::DeviceOptions),
        Block::DeviceProperties(DevicePropertiesBlock::AliasName),
        Block::DeviceProperties(DevicePropertiesBlock::DeviceInstance(DeviceInstance {
            high: 1,
            low: 2,
        })),
        Block::DeviceProperties(DevicePropertiesBlock::OemDeviceId),
        Block::DeviceProperties(DevicePropertiesBlock::StandardGateway),
        Block::DeviceProperties(DevicePropertiesBlock::RsiProperties),
        Block::All,
    ]
}

#[test]
fn parse_of_build_gives_the_frame_back() {
    let mut dcp = Dcp::new(
        EthernetAddress([0x52, 0x54, 0x00, 0x8a, 0x3b, 0xa5]),
        EthernetAddress([0x00, 0x00, 0x23, 0x53, 0x4e, 0xfe]),
        DcpHeader::new(ServiceId::Get, ServiceType::Success, 0xdead_beef, 0),
        DcpFrameId::GetSet,
    );
    let blocks = every_block();
    for b in &blocks {
        dcp.add_block(DcpBlock::new(*b));
    }
    let total: usize = (0..dcp.number_of_blocks).map(|i| dcp.blocks[i].unwrap().block_length as usize).sum();
    assert_eq!(dcp.header.data_length as usize, total);
    assert_eq!(dcp.length(), 26 + total);

    let mut buffer = [0x5a; 255];
    dcp.encode_into(&mut buffer);
    assert_eq!(u16::from_be_bytes([buffer[24], buffer[25]]) as usize, total);

    let back = Dcp::parse(&DCPFrame::new_checked(&buffer)).unwrap();
    assert_eq!(back.destination, dcp.destination);
    assert_eq!(back.source, dcp.source);
    assert_eq!(back.eth_type, EthType::Profinet);
    assert!(!back.is_vlan);
    assert_eq!(back.frame_id, dcp.frame_id);
    assert_eq!(back.header, dcp.header);
    assert_eq!(back.number_of_blocks, blocks.len());
    for i in 0..blocks.len() {
        assert_eq!(back.blocks[i], dcp.blocks[i]);
    }
}

#[test]
fn identify_after_set_reports_ip_set_via_set_request() {
    let mut pnet = PNet::new(Config::new(
        "dev",
        "vendor",
        IpConfig::new_not_set(EthernetAddress([0, 0, 0x23, 0x53, 0x4e, 0xfe])),
    ));
    let request = Dcp::new(
        EthernetAddress([0x01, 0x0e, 0xcf, 0x00, 0x00, 0x00]),
        EthernetAddress([0x52, 0x54, 0x00, 0x8a, 0x3b, 0xa5]),
        DcpHeader::new(ServiceId::Identify, ServiceType::Request, 3, 1),
        DcpFrameId::Request,
    );
    let info = |pnet: &PNet| match request.new_hello_response(pnet).blocks[6].unwrap().block {
        Block::Ip(IpBlock::IpParameter(p)) => p.block_info,
        _ => panic!("IP parameters expected last"),
    };
    assert_eq!(info(&pnet), IpParameterBlockInfo::IpNotSet);

    let mut set = vec![0, 0, 0x23, 0x53, 0x4e, 0xfe, 0x52, 0x54, 0x00, 0x8a, 0x3b, 0xa5];
    set.extend_from_slice(&[0x88, 0x92, 0xfe, 0xfd, 0x04, 0x00, 0, 0, 0, 1, 0, 0, 0, 18]);
    set.extend_from_slice(&[0x01, 0x02, 0x00, 0x0e, 0x00, 0x01, 192, 168, 1, 50, 255, 255, 255, 0, 0, 0, 0, 0]);
    let outcome = Dcp::handle_frame(&mut pnet, &DCPFrame::new_checked(&set), 0);
    assert_eq!(outcome, DcpOutcome::Configured { update_interface: true });
    assert_eq!(info(&pnet), IpParameterBlockInfo::IpSetViaSetRequest);
}
