use profinet_rs::block::{DCPBlockFrame, DcpBlock, DeviceId};
use profinet_rs::dcp::Dcp;
use profinet_rs::error::{ParseDcpBlockError, ParseDcpError, ParseDcpHeaderError};
use profinet_rs::frame::DCPFrame;
use profinet_rs::header::{DcpHeader, DcpHeaderFrame, ServiceId, ServiceType};

fn frame_with(blocks: &[u8], data_length: u16) -> Vec<u8> {
    let mut f = vec![
        0x01, 0x0e, 0xcf, 0x00, 0x00, 0x00, 0x52, 0x54, 0x00, 0x8a, 0x3b, 0xa5, 0x88, 0x92, 0xfe,
        0xfe, 0x05, 0x00, 0x00, 0x00, 0x00, 0x01, 0x00, 0x00,
    ];
    f.extend_from_slice(&data_length.to_be_bytes());
    f.extend_from_slice(blocks);
    f
}

fn parse(raw: &[u8]) -> Result<Dcp, ParseDcpError> {
    Dcp::parse(&DCPFrame::new_checked(raw))
}

fn block_error(raw: &[u8]) -> ParseDcpBlockError {
    match parse(raw) {
        Err(ParseDcpError::BlockError(e)) => e,
        Err(e) => panic!("not a block error: {:?}", e),
        Ok(_) => panic!("parsed"),
    }
}

#[test]
fn byte_codec_reads_and_writes_big_endian() {
    let header = DcpHeaderFrame::new_unchecked(&[4, 0, 0x12, 0x34, 0x56, 0x78, 0x9a, 0xbc, 0x01, 0x02]);
    assert_eq!(header.x_id(), 0x1234_5678);
    assert_eq!(header.response_delay(), 0x9abc);
    assert_eq!(header.data_length(), 0x0102);
    assert_eq!(DCPBlockFrame::new_unchecked(&[2, 3, 0xab, 0xcd]).block_length(), 0xabcd);
    assert_eq!(DeviceId::parse_bytes(&[0x13, 0x37, 0x69, 0x69]), DeviceId { vendor_id: 0x1337, device_id: 0x6969 });

    let mut buf = [0u8; 10];
    let mut h = DcpHeader::new(ServiceId::Get, ServiceType::Request, 0xa1b2_c3d4, 9);
    h.data_length = 0xe5f6;
    h.encode_into(&mut buf);
    assert_eq!(buf, [3, 0, 0xa1, 0xb2, 0xc3, 0xd4, 0, 0, 0xe5, 0xf6]);
    assert_eq!(DeviceId { vendor_id: 0xabcd, device_id: 0x0102 }.as_bytes(), [0xab, 0xcd, 0x01, 0x02]);
}

#[test]
fn short_frame() {
    assert!(matches!(parse(&[0u8; 15]), Err(ParseDcpError::ShortFrame)));
    // A VLAN tag with no room for the EtherType and FrameID behind it.
    let mut raw = [0u8; 18];
    raw[12] = 0x81;
    assert!(matches!(parse(&raw), Err(ParseDcpError::ShortFrame)));
}

#[test]
fn not_profinet() {
    let mut raw = frame_with(&[0xff, 0xff, 0x00, 0x00], 4);
    raw[12] = 0x08;
    raw[13] = 0x00;
    assert!(matches!(parse(&raw), Err(ParseDcpError::NotProfinet)));
}

#[test]
fn unknown_frame_id() {
    let mut raw = frame_with(&[0xff, 0xff, 0x00, 0x00], 4);
    raw[15] = 0x00;
    assert!(matches!(parse(&raw), Err(ParseDcpError::FrameIdError)));
}

#[test]
fn header_errors() {
    let raw = frame_with(&[], 0);
    assert!(parse(&raw[..20]).is_err());
    assert!(matches!(
        parse(&raw[..20]),
        Err(ParseDcpError::HeaderError(ParseDcpHeaderError::InvalidHeaderLength))
    ));
    let mut raw = frame_with(&[0xff, 0xff, 0x00, 0x00], 4);
    raw[16] = 0x09;
    assert!(matches!(
        parse(&raw),
        Err(ParseDcpError::HeaderError(ParseDcpHeaderError::InvalidServiceID))
    ));
    let mut raw = frame_with(&[0xff, 0xff, 0x00, 0x00], 4);
    raw[17] = 0x02;
    assert!(matches!(
        parse(&raw),
        Err(ParseDcpError::HeaderError(ParseDcpHeaderError::InvalidServiceType))
    ));
    assert!(DcpHeaderFrame::new_checked(&[0u8; 9]).is_err());
}

#[test]
fn block_errors() {
    assert_eq!(block_error(&frame_with(&[0x01, 0x09, 0x00, 0x02, 0x00, 0x00], 6)), ParseDcpBlockError::InvalidIPSuboption);
    assert_eq!(
        block_error(&frame_with(&[0x02, 0x0b, 0x00, 0x02, 0x00, 0x00], 6)),
        ParseDcpBlockError::InvalidDevicePropertySuboption
    );
    assert_eq!(block_error(&frame_with(&[0xff, 0x01, 0x00, 0x00], 4)), ParseDcpBlockError::InvalidAllSuboption);
    assert_eq!(
        block_error(&frame_with(&[0x02, 0x04, 0x00, 0x04, 0x00, 0x00, 0x09, 0x00], 8)),
        ParseDcpBlockError::InvalidDeviceRole
    );
    let mut ip = vec![0x01, 0x02, 0x00, 0x0e, 0x00, 0x07];
    ip.extend_from_slice(&[0u8; 12]);
    assert_eq!(block_error(&frame_with(&ip, 18)), ParseDcpBlockError::InvalidIpParameterBlockInfo);
    assert_eq!(block_error(&frame_with(&[0x05, 0x01, 0x00, 0x02, 0x00, 0x00], 6)), ParseDcpBlockError::UnsupportedOption);
    assert_eq!(block_error(&frame_with(&[0x90, 0x01, 0x00, 0x02, 0x00, 0x00], 6)), ParseDcpBlockError::UnsupportedOption);
    // A MAC address block too short for its address.
    assert_eq!(block_error(&frame_with(&[0x01, 0x01, 0x00, 0x04, 0x00, 0x00, 1, 2], 8)), ParseDcpBlockError::ShortBlock);
    // Declared length past the data length.
    assert_eq!(
        block_error(&frame_with(&[0x02, 0x05, 0x00, 0x04, 0x00, 0x00, 0x02, 0x07], 6)),
        ParseDcpBlockError::BlockLengthOverflow
    );
    // Data length past the end of the frame.
    assert_eq!(block_error(&frame_with(&[0x02, 0x05, 0x00, 0x04], 8)), ParseDcpBlockError::ShortBlock);
    // A station name longer than 240 bytes.
    let mut name = vec![0x02, 0x02, 0x00, 0xf3, 0x00, 0x00];
    name.extend_from_slice(&[b'a'; 241]);
    name.push(0);
    assert_eq!(block_error(&frame_with(&name, 248)), ParseDcpBlockError::InvalidDevicePropertyBlock);
    // 33 all-selector blocks.
    let many: Vec<u8> = [0xff, 0xff, 0x00, 0x00].repeat(33);
    assert_eq!(block_error(&frame_with(&many, 132)), ParseDcpBlockError::TooManyBlocks);
    let many: Vec<u8> = [0xff, 0xff, 0x00, 0x00].repeat(32);
    assert_eq!(parse(&frame_with(&many, 128)).unwrap().number_of_blocks, 32);
}

#[test]
fn single_block_errors() {
    assert_eq!(DcpBlock::parse_block(&[0x02, 0x02, 0x00]), Err(ParseDcpBlockError::ShortBlock));
    assert_eq!(DcpBlock::parse_block(&[0x02, 0x02, 0x00, 0x01, 0x00]), Err(ParseDcpBlockError::ShortBlock));
    assert_eq!(DcpBlock::parse_block(&[0x00, 0x02, 0x00, 0x02, 0x00, 0x00]), Err(ParseDcpBlockError::InvalidBlockOption));
    let all = DcpBlock::parse_block(&[0xff, 0xff, 0x00, 0x01, 0x00]).unwrap();
    assert_eq!(all.block_length, 6);
}
