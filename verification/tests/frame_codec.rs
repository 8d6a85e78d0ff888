use zigbee_bridge::serial_protocols::mmb_errors::FrameError;
use zigbee_bridge::serial_protocols::mmb_errors::MmbZigbeeModemError;
use zigbee_bridge::serial_protocols::mmb_frame::Header;
use zigbee_bridge::serial_protocols::mmb_frame::MmbZigbeeModemMessage;
use zigbee_bridge::serial_protocols::mmb_frame::CHECKSUM_SIZE;
use zigbee_bridge::serial_protocols::mmb_frame::HEADER_SIZE;
use zigbee_bridge::serial_protocols::mmb_frame::START_OF_FRAME;
use zigbee_bridge::serial_protocols::mmb_headers::HeaderNetworkCommissioning;
use zigbee_bridge::serial_protocols::mmb_headers::HeaderNothing;
use zigbee_bridge::serial_protocols::mmb_headers::HeaderUtilities;
use zigbee_bridge::serial_protocols::mmb_headers::PrimaryHeader;
use zigbee_bridge::serial_protocols::mmb_headers::SecondaryHeader;
use zigbee_bridge::serial_protocols::serial_port_parser::ParserError;

const PRIMARY_CODES: [u8; 11] = [0x55, 0x01, 0x02, 0x03, 0x04, 0x05, 0x11, 0x12, 0x0B, 0xB0, 0xD1];

fn frame(primary: u8, secondary: u8, seq: u8, payload: &[u8], checksum: [u8; 2]) -> Vec<u8> {
    let mut bytes = vec![0xF1, primary, secondary, seq, (payload.len() + 1) as u8];
    bytes.extend_from_slice(payload);
    bytes.extend_from_slice(&checksum);
    bytes
}

fn kind_of(bytes: &[u8]) -> FrameError {
    match MmbZigbeeModemMessage::new(bytes) {
        Ok(m) => panic!("decoded {:?}", m),
        Err(e) => e.kind,
    }
}

#[test]
fn constants_of_the_wire_format() {
    assert_eq!(START_OF_FRAME, 0xF1);
    assert_eq!(HEADER_SIZE, 5);
    assert_eq!(CHECKSUM_SIZE, 2);
}

#[test]
fn decodes_startup_sync_request() {
    let m = MmbZigbeeModemMessage::new(&[0xF1, 0x55, 0x21, 0x01, 0x01, 0x00, 0x00]).unwrap();
    assert_eq!(
        m.header,
        Header {
            start_of_frame: 0xF1,
            primary_header: PrimaryHeader::Utility,
            secondary_header: SecondaryHeader::HeaderUtilities(HeaderUtilities::StartupSyncRequest),
            frame_seq_number: 1,
            payload_length: 1,
        }
    );
    assert_eq!(m.payload, Vec::<u8>::new());
    assert_eq!(m.checksum, [0x00, 0x00]);
    assert!(m.checksum_accepted());
}

#[test]
fn decodes_payload_and_checksum_as_they_come() {
    let bytes = [0xF1, 0x01, 0x01, 0x2A, 0x04, 0xDE, 0xAD, 0xBE, 0x12, 0x34];
    let m = MmbZigbeeModemMessage::new(&bytes).unwrap();
    assert_eq!(m.header.start_of_frame, 0xF1);
    assert_eq!(m.header.primary_header, PrimaryHeader::NetworkCommissioning);
    assert_eq!(
        m.header.secondary_header,
        SecondaryHeader::HeaderNetworkCommissioning(HeaderNetworkCommissioning::FormNetwork)
    );
    assert_eq!(m.header.frame_seq_number, 0x2A);
    assert_eq!(m.header.payload_length, 4);
    assert_eq!(m.payload, vec![0xDE, 0xAD, 0xBE]);
    assert_eq!(m.checksum, [0x12, 0x34]);
    assert!(m.checksum_accepted());
}

#[test]
fn decode_reproduces_every_field_for_every_code_pair() {
    let payload = [9u8, 8, 7, 6];
    for &p in PRIMARY_CODES.iter() {
        for s in 0..=255u8 {
            let seq = s.wrapping_mul(3);
            let bytes = frame(p, s, seq, &payload, [s, p]);
            let m = MmbZigbeeModemMessage::new(&bytes).unwrap();
            assert_eq!(m.header.start_of_frame, bytes[0]);
            assert_eq!(m.header.primary_header.code(), bytes[1]);
            let resolved = match m.header.primary_header {
                PrimaryHeader::Utility => HeaderUtilities::from(s).is_some(),
                PrimaryHeader::NetworkCommissioning => HeaderNetworkCommissioning::from(s).is_some(),
                _ => false,
            };
            if resolved {
                assert_eq!(m.header.secondary_header.code(), bytes[2]);
            } else {
                assert_eq!(
                    m.header.secondary_header,
                    SecondaryHeader::HeaderNothing(HeaderNothing::Unknown)
                );
            }
            assert_eq!(m.header.frame_seq_number, bytes[3]);
            assert_eq!(m.header.payload_length, bytes[4] as i32);
            assert_eq!(m.payload, payload.to_vec());
            assert_eq!(m.checksum, [s, p]);
        }
    }
}

#[test]
fn decodes_the_longest_frame() {
    let payload: Vec<u8> = (0..254u32).map(|i| i as u8).collect();
    let bytes = frame(0x55, 0x22, 7, &payload, [1, 2]);
    assert_eq!(bytes.len(), 261);
    assert_eq!(bytes[4], 255);
    let m = MmbZigbeeModemMessage::new(&bytes).unwrap();
    assert_eq!(m.header.payload_length, 255);
    assert_eq!(m.payload, payload);
    assert_eq!(m.checksum, [1, 2]);
}

#[test]
fn bad_sentinel_whatever_the_other_bytes() {
    assert_eq!(kind_of(&[0xF0, 0x55, 0x21, 0x01, 0x01, 0x00, 0x00]), FrameError::BadSentinel);
    for first in 0..=255u8 {
        if first == 0xF1 {
            continue;
        }
        assert_eq!(kind_of(&[first, 0x55, 0x21, 0x01, 0x01, 0x00, 0x00]), FrameError::BadSentinel);
        assert_eq!(kind_of(&[first, 0x99, 0x21, 0x01, 0x09, 0x00]), FrameError::BadSentinel);
        assert_eq!(kind_of(&[first]), FrameError::BadSentinel);
    }
}

#[test]
fn empty_buffer_has_no_sentinel() {
    assert_eq!(kind_of(&[]), FrameError::BadSentinel);
}

#[test]
fn length_mismatch_when_bytes_are_missing_or_left_over() {
    // one byte more than the length byte allows
    assert_eq!(kind_of(&[0xF1, 0x55, 0x21, 0x01, 0x01, 0xAA, 0x00, 0x00]), FrameError::LengthMismatch);
    // one byte less
    assert_eq!(kind_of(&[0xF1, 0x55, 0x21, 0x01, 0x03, 0xAA, 0x00, 0x00]), FrameError::LengthMismatch);
    // the length byte counts one more than the payload: 0 fits no frame
    assert_eq!(kind_of(&[0xF1, 0x55, 0x21, 0x01, 0x00, 0x00, 0x00]), FrameError::LengthMismatch);
    assert_eq!(kind_of(&[0xF1, 0x55, 0x21, 0x01, 0x00, 0x00]), FrameError::LengthMismatch);
    // an empty payload goes with the length byte 1, and with no other
    assert_eq!(kind_of(&[0xF1, 0x55, 0x21, 0x01, 0x02, 0x00, 0x00]), FrameError::LengthMismatch);
    assert_eq!(kind_of(&[0xF1, 0x55, 0x21, 0x01, 0xFF, 0x00, 0x00]), FrameError::LengthMismatch);
}

#[test]
fn length_mismatch_when_shorter_than_header_and_checksum() {
    assert_eq!(kind_of(&[0xF1]), FrameError::LengthMismatch);
    assert_eq!(kind_of(&[0xF1, 0x55]), FrameError::LengthMismatch);
    assert_eq!(kind_of(&[0xF1, 0x55, 0x21, 0x01]), FrameError::LengthMismatch);
    assert_eq!(kind_of(&[0xF1, 0x55, 0x21, 0x01, 0x01]), FrameError::LengthMismatch);
    assert_eq!(kind_of(&[0xF1, 0x55, 0x21, 0x01, 0x01, 0x00]), FrameError::LengthMismatch);
}

#[test]
fn unknown_primary_fails_decoding() {
    assert_eq!(kind_of(&[0xF1, 0x99, 0x21, 0x01, 0x01, 0x00, 0x00]), FrameError::UnknownPrimary);
    assert_eq!(kind_of(&[0xF1, 0x00, 0x00, 0x00, 0x02, 0x07, 0x00, 0x00]), FrameError::UnknownPrimary);
}

#[test]
fn failures_are_looked_for_in_order() {
    // wrong marker and wrong length and unknown primary
    assert_eq!(kind_of(&[0x00, 0x99, 0x21, 0x01, 0x05, 0x00, 0x00]), FrameError::BadSentinel);
    // wrong length and unknown primary
    assert_eq!(kind_of(&[0xF1, 0x99, 0x21, 0x01, 0x05, 0x00, 0x00]), FrameError::LengthMismatch);
}

#[test]
fn header_is_read_from_the_front() {
    let h = Header::new(&[0xF1, 0xD1, 0x21, 0x10, 0x30]).unwrap();
    assert_eq!(h.start_of_frame, 0xF1);
    assert_eq!(h.primary_header, PrimaryHeader::Diagnostics);
    assert_eq!(h.secondary_header, SecondaryHeader::HeaderNothing(HeaderNothing::Unknown));
    assert_eq!(h.frame_seq_number, 0x10);
    assert_eq!(h.payload_length, 0x30);
    // what follows the header is not looked at
    let h2 = Header::new(&[0xF1, 0xD1, 0x21, 0x10, 0x30, 1, 2, 3]).unwrap();
    assert_eq!(h, h2);
}

#[test]
fn header_failures() {
    assert_eq!(Header::new(&[]).unwrap_err().kind, FrameError::BadSentinel);
    assert_eq!(Header::new(&[0x01, 0x55, 0x21, 0x01, 0x01]).unwrap_err().kind, FrameError::BadSentinel);
    assert_eq!(Header::new(&[0xF1, 0x55, 0x21, 0x01]).unwrap_err().kind, FrameError::LengthMismatch);
    assert_eq!(Header::new(&[0xF1, 0x99, 0x21, 0x01, 0x01]).unwrap_err().kind, FrameError::UnknownPrimary);
    // the header does not look at the size of what follows
    assert!(Header::new(&[0xF1, 0x55, 0x21, 0x01, 0x09]).is_ok());
}

#[test]
fn errors_carry_their_text() {
    let e = MmbZigbeeModemError::new(FrameError::BadSentinel);
    assert_eq!(e.kind, FrameError::BadSentinel);
    assert_eq!(e.error, "Message Format error: Can't find the START_OF_FRAME byte");
    let e = MmbZigbeeModemError::new(FrameError::LengthMismatch);
    assert_eq!(e.kind, FrameError::LengthMismatch);
    assert_eq!(e.error, "Message format error: The size of the message is different than expected");
    let e = MmbZigbeeModemError::new(FrameError::UnknownPrimary);
    assert_eq!(e.kind, FrameError::UnknownPrimary);
    assert_eq!(e.error, "Message format error: Unknown primary header");
    let e = MmbZigbeeModemMessage::new(&[0xF0]).unwrap_err();
    assert_eq!(e, MmbZigbeeModemError::new(FrameError::BadSentinel));
}

#[test]
fn frame_errors_fall_into_classes() {
    assert_eq!(FrameError::BadSentinel.class(), ParserError::FrameFormatError);
    assert_eq!(FrameError::LengthMismatch.class(), ParserError::FrameFormatError);
    assert_eq!(FrameError::UnknownPrimary.class(), ParserError::UnknownHeaderError);
}
