use profinet_rs::block_options::{
    AllSuboption, BlockErrorValues, BlockOption, DHCPSuboption, DevicePropertiesSuboption,
    DeviceRole, IpSuboption, ManufacturerSpecificSuboption,
};
use profinet_rs::frame::{DcpFrameId, EthType};

#[test]
fn option_codes_decode_and_encode() {
    assert_eq!(BlockOption::from_u8(1), Some(BlockOption::IP));
    assert_eq!(BlockOption::from_u8(2), Some(BlockOption::DeviceProperties));
    assert_eq!(BlockOption::from_u8(4), None);
    assert_eq!(BlockOption::from_u8(0x7e), None);
    assert_eq!(BlockOption::from_u8(0x80), Some(BlockOption::ManufacturerSpecific));
    assert_eq!(BlockOption::from_u8(0xfe), Some(BlockOption::ManufacturerSpecific));
    assert_eq!(BlockOption::from_u8(0xff), Some(BlockOption::All));
    assert_eq!(BlockOption::ManufacturerSpecific.as_u8(), 0x80);
    assert_eq!(BlockOption::NMEDomain.as_u8(), 7);
}

#[test]
fn suboption_codes_decode_and_encode() {
    assert_eq!(IpSuboption::from_u8(3), Some(IpSuboption::FullIpSuite));
    assert_eq!(IpSuboption::from_u8(4), None);
    assert_eq!(DevicePropertiesSuboption::from_u8(7), Some(DevicePropertiesSuboption::DeviceInstance));
    assert_eq!(DevicePropertiesSuboption::from_u8(11), None);
    assert_eq!(DevicePropertiesSuboption::RsiProperties.as_u8(), 10);
    assert_eq!(AllSuboption::from_u8(0xff), Some(AllSuboption::All));
    assert_eq!(AllSuboption::from_u8(0xfe), None);
    assert_eq!(DHCPSuboption::from_u8(61), Some(DHCPSuboption::DHCPClientIdentifier));
    assert_eq!(ManufacturerSpecificSuboption::from_u8(0xfe), Some(ManufacturerSpecificSuboption::ManufacturerSpecific));
    assert_eq!(ManufacturerSpecificSuboption::from_u8(0xff), None);
    assert_eq!(DeviceRole::from_u8(3), Some(DeviceRole::IOSupervisor));
    assert_eq!(DeviceRole::from_u8(4), None);
    assert_eq!(BlockErrorValues::SetNotPossible.as_u8(), 4);
}

#[test]
fn frame_ids_and_ether_types() {
    assert_eq!(DcpFrameId::from_u16(0xfefc), Some(DcpFrameId::Hello));
    assert_eq!(DcpFrameId::from_u16(0xfeff), Some(DcpFrameId::Response));
    assert_eq!(DcpFrameId::from_u16(0xfefb), None);
    assert_eq!(DcpFrameId::GetSet.as_u16(), 0xfefd);
    assert_eq!(EthType::from_u16(0x8100), EthType::VLAN);
    assert_eq!(EthType::from_u16(0x8892), EthType::Profinet);
    assert_eq!(EthType::from_u16(0x0800), EthType::Other);
}
