use profinet_rs::block::{DcpBlock, DeviceInstance, DeviceVendor, NameOfStation};

#[test]
fn block_test_device_vendor_as_bytes() {
    let device_vendor = DeviceVendor::from_str("device vendor 123");
    assert_eq!(device_vendor.length, 17);

    let bytes = device_vendor.as_bytes();
    assert_eq!(
        bytes,
        [100, 101, 118, 105, 99, 101, 32, 118, 101, 110, 100, 111, 114, 32, 49, 50, 51]
    );

    let mut buffer = [0; 17];
    device_vendor.encode_into(&mut buffer);

    assert_eq!(
        buffer,
        [100, 101, 118, 105, 99, 101, 32, 118, 101, 110, 100, 111, 114, 32, 49, 50, 51]
    );
}

#[test]
fn block_test_device_instance_as_bytes() {
    let device_instance = DeviceInstance { high: 123, low: 42 };
    let bytes = device_instance.as_bytes();
    assert_eq!(bytes, [123, 42]);

    let mut buffer = [0; 2];
    device_instance.encode_into(&mut buffer);

    assert_eq!(buffer, [123, 42])
}

#[test]
fn name_of_station_round_trip_through_parse_bytes() {
    let name = NameOfStation::from_str("plc-01");
    assert_eq!(name.as_bytes(), b"plc-01");
    let parsed = NameOfStation::parse_bytes(b"plc-01 and more", 6);
    assert_eq!(parsed, name);
    assert_eq!(name.block_length(), 8);
}

#[test]
fn odd_length_name_block_is_padded_to_even() {
    let name = NameOfStation::from_str("thirteen-char");
    assert_eq!(name.length, 13);
    let block = DcpBlock::new(profinet_rs::block::Block::DeviceProperties(
        profinet_rs::block::DevicePropertiesBlock::NameOfStation(name),
    ));
    // 4 header bytes + 2 BlockInfo bytes + 13 name bytes = 19, plus one pad byte.
    assert_eq!(block.block_length, 20);
}
