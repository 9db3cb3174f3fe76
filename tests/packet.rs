use renet::{
    DecodeError, EncodeError, FragmentHeader, HeaderParser, PacketHeader, PacketType,
    FRAGMENT_MAX_COUNT, FRAGMENT_MAX_SIZE,
};

#[test]
fn fragment_header_read_write() {
    let fragment_header = FragmentHeader {
        sequence: 42,
        fragment_id: 3,
        num_fragments: 5,
    };

    let mut buffer = vec![0u8; FragmentHeader::size()];

    fragment_header.write(&mut buffer).unwrap();

    let parsed_fragment_header = FragmentHeader::parse(&mut buffer).unwrap();
    assert_eq!(fragment_header, parsed_fragment_header);
}

#[test]
fn packet_header_read_write() {
    let header = PacketHeader { sequence: 42 };

    let mut buffer = vec![0u8; PacketHeader::size()];

    header.write(&mut buffer).unwrap();

    let parsed_header = PacketHeader::parse(&mut buffer).unwrap();
    assert_eq!(header, parsed_header);
}

#[test]
fn fragment_header_bytes() {
    let header = FragmentHeader { sequence: 42, fragment_id: 3, num_fragments: 5 };
    let mut buffer = vec![0u8; 5];
    assert_eq!(header.write(&mut buffer), Ok(()));
    assert_eq!(buffer, vec![0x01, 0x00, 0x2A, 0x03, 0x05]);
    assert_eq!(FragmentHeader::parse(&buffer), Ok(header));
}

#[test]
fn packet_header_bytes() {
    let header = PacketHeader { sequence: 42 };
    let mut buffer = vec![0u8; 3];
    assert_eq!(header.write(&mut buffer), Ok(()));
    assert_eq!(buffer, vec![0x00, 0x00, 0x2A]);
    assert_eq!(PacketHeader::parse(&buffer), Ok(header));
}

#[test]
fn sequence_is_big_endian() {
    let header = PacketHeader { sequence: 0x1234 };
    let mut buffer = vec![0u8; 3];
    header.write(&mut buffer).unwrap();
    assert_eq!(buffer, vec![0x00, 0x12, 0x34]);
    assert_eq!(PacketHeader::parse(&[0x00, 0xAB, 0xCD]), Ok(PacketHeader { sequence: 0xABCD }));
}

#[test]
fn round_trip_extreme_fields() {
    for sequence in [0u16, 1, 255, 256, 0x7FFF, 0xFFFF] {
        let header = PacketHeader { sequence };
        let mut buffer = vec![0u8; 3];
        header.write(&mut buffer).unwrap();
        assert_eq!(PacketHeader::parse(&buffer), Ok(header));
        for (fragment_id, num_fragments) in [(0u8, 0u8), (0, 255), (255, 0), (255, 255), (3, 5)] {
            let header = FragmentHeader { sequence, fragment_id, num_fragments };
            let mut buffer = vec![0u8; 5];
            header.write(&mut buffer).unwrap();
            assert_eq!(FragmentHeader::parse(&buffer), Ok(header));
        }
    }
}

#[test]
fn fixed_sizes() {
    assert_eq!(PacketHeader::size(), 3);
    assert_eq!(FragmentHeader::size(), 5);
}

#[test]
fn truncated_input() {
    assert_eq!(PacketHeader::parse(&[]), Err(DecodeError::Truncated));
    assert_eq!(PacketHeader::parse(&[0x00, 0x00]), Err(DecodeError::Truncated));
    assert_eq!(FragmentHeader::parse(&[]), Err(DecodeError::Truncated));
    assert_eq!(FragmentHeader::parse(&[0x01, 0x00, 0x2A, 0x03]), Err(DecodeError::Truncated));
}

#[test]
fn wrong_type_tag() {
    let fragment = [0x01, 0x00, 0x2A, 0x03, 0x05];
    assert_eq!(PacketHeader::parse(&fragment), Err(DecodeError::WrongType));
    let packet = [0x00, 0x00, 0x2A];
    assert_eq!(FragmentHeader::parse(&packet), Err(DecodeError::WrongType));
    assert_eq!(PacketHeader::parse(&[0x07, 0x00, 0x00]), Err(DecodeError::WrongType));
    assert_eq!(FragmentHeader::parse(&[0x07, 0, 0, 0, 0]), Err(DecodeError::WrongType));
}

#[test]
fn tag_is_checked_before_length() {
    assert_eq!(PacketHeader::parse(&[0x01, 0x00]), Err(DecodeError::WrongType));
}

#[test]
fn buffer_capacity_boundary() {
    let packet = PacketHeader { sequence: 7 };
    let mut exact = vec![0u8; PacketHeader::size()];
    assert_eq!(packet.write(&mut exact), Ok(()));
    let mut short = vec![0xEEu8; PacketHeader::size() - 1];
    assert_eq!(packet.write(&mut short), Err(EncodeError::BufferTooSmall));
    assert_eq!(short, vec![0xEE, 0xEE]);

    let fragment = FragmentHeader { sequence: 7, fragment_id: 1, num_fragments: 2 };
    let mut exact = vec![0u8; FragmentHeader::size()];
    assert_eq!(fragment.write(&mut exact), Ok(()));
    let mut short = vec![0xEEu8; FragmentHeader::size() - 1];
    assert_eq!(fragment.write(&mut short), Err(EncodeError::BufferTooSmall));
    assert_eq!(short, vec![0xEE; 4]);
}

#[test]
fn longer_buffers_keep_their_tail() {
    let header = FragmentHeader { sequence: 0x0102, fragment_id: 9, num_fragments: 10 };
    let mut buffer = vec![0xEEu8; 8];
    header.write(&mut buffer).unwrap();
    assert_eq!(buffer, vec![0x01, 0x01, 0x02, 9, 10, 0xEE, 0xEE, 0xEE]);
    assert_eq!(FragmentHeader::parse(&buffer), Ok(header));
}

#[test]
fn packet_type_tags() {
    assert_eq!(PacketType::Packet.tag(), 0);
    assert_eq!(PacketType::Fragment.tag(), 1);
}

#[test]
fn published_limits() {
    assert_eq!(FRAGMENT_MAX_COUNT, 256);
    assert_eq!(FRAGMENT_MAX_SIZE, 1024);
}
