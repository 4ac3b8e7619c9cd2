use profinet_rs::frame::{DCPFrame, DcpFrameId};
use profinet_rs::header::{DcpHeader, DcpHeaderFrame, ServiceId, ServiceType};

const HELLO_REQUEST: [u8; 64] = [
    0x01, 0x0e, 0xcf, 0x00, 0x00, 0x00, 0x52, 0x54, 0x00, 0x8a, 0x3b, 0xa5, 0x88, 0x92, 0xfe, 0xfe,
    0x05, 0x00, 0x00, 0x00, 0x00, 0x05, 0x00, 0xc0, 0x00, 0x04, 0xff, 0xff, 0x00, 0x00, 0x00, 0x00,
    0x00, 0x00, 0x00, 0x00, 0x00, 0x00, 0x00, 0x00, 0x00, 0x00, 0x00, 0x00, 0x00, 0x00, 0x00, 0x00,
    0x00, 0x00, 0x00, 0x00, 0x00, 0x00, 0x00, 0x00, 0x00, 0x00, 0x00, 0x00, 0x00, 0x00, 0x00, 0x00,
];

#[test]
fn header_test_parse_dcp_header() {
    let raw_packet = HELLO_REQUEST;

    let packet = DCPFrame::new_checked(&raw_packet);
    assert_eq!(DcpFrameId::from_u16(packet.frame_id_u16()), Some(DcpFrameId::Request));

    let payload = packet.payload();
    let dcp_header = DcpHeaderFrame::new_checked(payload);

    assert!(dcp_header.is_ok());

    let dcp_header = dcp_header.unwrap();

    assert_eq!(dcp_header.service_id().unwrap(), ServiceId::Identify);
    assert_eq!(dcp_header.service_type().unwrap(), ServiceType::Request);
    assert_eq!(dcp_header.x_id(), 5);
    assert_eq!(dcp_header.response_delay(), 192);
    assert_eq!(dcp_header.data_length(), 4);
}

#[test]
fn test_encode_header() {
    let header = DcpHeader::new(ServiceId::Identify, ServiceType::Success, 1, 0);
    assert_eq!(header.data_length, 0);

    let mut buffer = [0; 10];
    header.encode_into(&mut buffer);

    assert_eq!(buffer, [5, 1, 0, 0, 0, 1, 0, 0, 0, 0]);
}

#[test]
fn header_encoding_writes_zero_response_delay() {
    let mut header = DcpHeader::new(ServiceId::Assign, ServiceType::NotSupported, 0x0102_0304, 77);
    header.data_length = 0x0a0b;
    let mut buffer = [0xff; 10];
    header.encode_into(&mut buffer);
    assert_eq!(buffer, [4, 5, 1, 2, 3, 4, 0, 0, 0x0a, 0x0b]);

    let parsed = DcpHeader::parse(&DcpHeaderFrame::new_unchecked(&buffer)).unwrap();
    assert_eq!(parsed.x_id, 0x0102_0304);
    assert_eq!(parsed.response_delay_factor, 0);
    assert_eq!(parsed.data_length, 0x0a0b);
    assert_eq!(parsed.service_id, ServiceId::Assign);
}
