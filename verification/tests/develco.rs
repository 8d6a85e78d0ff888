use zigbee_bridge::serial_protocols::develco_zigbee_modem_protocol::AddressLength;
use zigbee_bridge::serial_protocols::develco_zigbee_modem_protocol::AddressMode;
use zigbee_bridge::serial_protocols::develco_zigbee_modem_protocol::DevelcoZigbeeModemProtocol;
use zigbee_bridge::serial_protocols::serial_port_parser::ParserError;
use zigbee_bridge::serial_protocols::serial_port_parser::SerialPortParser;

#[test]
fn address_lengths() {
    assert_eq!(AddressMode::address_length(AddressMode::Indirect), 0);
    assert_eq!(AddressMode::address_length(AddressMode::Group), 2);
    assert_eq!(AddressMode::address_length(AddressMode::Network), 2);
    assert_eq!(AddressMode::address_length(AddressMode::Eui), 8);
}

#[test]
fn address_length_types() {
    assert_eq!(AddressMode::address_length_type(AddressMode::Indirect), AddressLength::Zero);
    assert_eq!(AddressMode::address_length_type(AddressMode::Group), AddressLength::TwoBytes { address: 0 });
    assert_eq!(AddressMode::address_length_type(AddressMode::Network), AddressLength::TwoBytes { address: 0 });
    assert_eq!(AddressMode::address_length_type(AddressMode::Eui), AddressLength::FourBytes { address: 0 });
}

#[test]
fn address_modes_by_code() {
    assert_eq!(AddressMode::from(0), Some(AddressMode::Indirect));
    assert_eq!(AddressMode::from(1), Some(AddressMode::Group));
    assert_eq!(AddressMode::from(2), Some(AddressMode::Network));
    assert_eq!(AddressMode::from(3), Some(AddressMode::Eui));
    for byte in 4..=255u8 {
        assert_eq!(AddressMode::from(byte), None);
    }
    assert_eq!(AddressMode::Eui.code(), 3);
    assert_eq!(AddressMode::Indirect.code(), 0);
}

#[test]
fn develco_parser_refuses_every_buffer() {
    let mut parser = DevelcoZigbeeModemProtocol::new();
    assert_eq!(parser.parse(&[]), Err(ParserError::UnknownHeaderError));
    assert_eq!(parser.parse(&[0x00, 0x00, 0x00, 0x40, 0x00]), Err(ParserError::UnknownHeaderError));
    assert_eq!(parser.parse(&[0xF1, 0x55, 0x21, 0x01, 0x01, 0x00, 0x00]), Err(ParserError::UnknownHeaderError));
    let refusal = parser.refusal(&[0x00, 0x00, 0x00, 0x40]);
    assert_eq!(refusal.error, "Unknown message type!");
    assert_eq!(refusal.class(), ParserError::UnknownHeaderError);
    assert_eq!(parser.reply_written(Ok(1)), Ok(()));
    assert_eq!(parser.reply_written(Err("x".to_string())), Err(ParserError::TransportError));
}
