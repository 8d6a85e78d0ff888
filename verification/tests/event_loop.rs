use zigbee_bridge::serial_protocols::develco_zigbee_modem_protocol::DevelcoZigbeeModemProtocol;
use zigbee_bridge::serial_protocols::mmb_networks_modem_protocol::MmbZigbeeModemProtocol;
use zigbee_bridge::serial_protocols::mmb_networks_modem_protocol::MmbZigbeeModemState;
use zigbee_bridge::serial_protocols::serial_port_parser::ParserError;
use zigbee_bridge::zigbee_modem::LoopAction;
use zigbee_bridge::zigbee_modem::ZigbeeModem;
use zigbee_bridge::zigbee_modem::MODEM_TOKEN;
use zigbee_bridge::zigbee_modem::READ_BUFFER_SIZE;

#[test]
fn loop_constants() {
    assert_eq!(MODEM_TOKEN, 1);
    assert_eq!(READ_BUFFER_SIZE, 256);
}

#[test]
fn only_the_modem_token_is_drained() {
    let modem = ZigbeeModem::new(MmbZigbeeModemProtocol::new());
    assert_eq!(modem.on_event(1), LoopAction::Drain);
    assert_eq!(modem.on_event(MODEM_TOKEN), LoopAction::Drain);
    assert_eq!(modem.on_event(0), LoopAction::Stop);
    assert_eq!(modem.on_event(2), LoopAction::Stop);
    assert_eq!(modem.on_event(usize::MAX), LoopAction::Stop);
}

#[test]
fn startup_sync_request_end_to_end() {
    let mut modem = ZigbeeModem::new(MmbZigbeeModemProtocol::new());
    assert_eq!(modem.parser().state(), MmbZigbeeModemState::Uninitialized);
    assert_eq!(modem.on_event(MODEM_TOKEN), LoopAction::Drain);
    // the read filled seven bytes of the buffer; exactly those are handed on
    let mut buffer = vec![0u8; READ_BUFFER_SIZE];
    let received = [0xF1, 0x55, 0x21, 0x01, 0x01, 0x00, 0x00];
    buffer[..received.len()].copy_from_slice(&received);
    let reply = modem.on_incoming_data(Ok(&buffer[0..received.len()]));
    assert_eq!(reply, Ok(Some(b"12345".to_vec())));
    assert_eq!(modem.on_reply_written(Ok(5)), Ok(()));
    assert_eq!(modem.parser().state(), MmbZigbeeModemState::Initializing);
}

#[test]
fn bad_sentinel_end_to_end() {
    let mut modem = ZigbeeModem::new(MmbZigbeeModemProtocol::new());
    let reply = modem.on_incoming_data(Ok(&[0xF0, 0x55, 0x21, 0x01, 0x01, 0x00, 0x00]));
    // no reply is asked for, and the session has not seen a frame
    assert_eq!(reply, Err(ParserError::FrameFormatError));
    assert_eq!(modem.parser().state(), MmbZigbeeModemState::Uninitialized);
    // the loop goes on: the next event is drained, and the next frame taken
    assert_eq!(modem.on_event(MODEM_TOKEN), LoopAction::Drain);
    let reply = modem.on_incoming_data(Ok(&[0xF1, 0x55, 0x21, 0x01, 0x01, 0x00, 0x00]));
    assert_eq!(reply, Ok(Some(b"12345".to_vec())));
    assert_eq!(modem.parser().state(), MmbZigbeeModemState::Initializing);
}

#[test]
fn failed_read_is_a_transport_error_and_the_loop_goes_on() {
    let mut modem = ZigbeeModem::new(MmbZigbeeModemProtocol::new());
    let reply = modem.on_incoming_data(Err("device gone".to_string()));
    assert_eq!(reply, Err(ParserError::TransportError));
    assert_eq!(modem.parser().state(), MmbZigbeeModemState::Uninitialized);
    assert_eq!(modem.on_event(MODEM_TOKEN), LoopAction::Drain);
}

#[test]
fn empty_read_reaches_no_parser() {
    let mut modem = ZigbeeModem::new(MmbZigbeeModemProtocol::new());
    assert_eq!(modem.on_incoming_data(Ok(&[])), Ok(None));
    assert_eq!(modem.parser().state(), MmbZigbeeModemState::Uninitialized);
}

#[test]
fn failed_write_is_a_transport_error_and_the_state_has_moved() {
    let mut modem = ZigbeeModem::new(MmbZigbeeModemProtocol::new());
    let reply = modem.on_incoming_data(Ok(&[0xF1, 0x55, 0x21, 0x01, 0x01, 0x00, 0x00]));
    assert!(reply.is_ok());
    assert_eq!(modem.on_reply_written(Err("broken pipe".to_string())), Err(ParserError::TransportError));
    assert_eq!(modem.parser().state(), MmbZigbeeModemState::Initializing);
    assert_eq!(modem.on_event(MODEM_TOKEN), LoopAction::Drain);
}

#[test]
fn dispatch_failures_do_not_stop_the_loop() {
    let mut modem = ZigbeeModem::new(MmbZigbeeModemProtocol::new());
    assert_eq!(
        modem.on_incoming_data(Ok(&[0xF1, 0x01, 0x04, 0x01, 0x01, 0x00, 0x00])),
        Err(ParserError::UnimplementedOperationError)
    );
    assert_eq!(
        modem.on_incoming_data(Ok(&[0xF1, 0x05, 0x04, 0x01, 0x01, 0x00, 0x00])),
        Err(ParserError::UnknownHeaderError)
    );
    assert_eq!(modem.on_event(MODEM_TOKEN), LoopAction::Drain);
    assert_eq!(modem.on_incoming_data(Ok(&[0xF1, 0x55, 0x22, 0x01, 0x01, 0x00, 0x00])), Ok(None));
    assert_eq!(modem.parser().state(), MmbZigbeeModemState::Initialized);
}

#[test]
fn the_loop_drives_any_parser() {
    let mut modem = ZigbeeModem::new(DevelcoZigbeeModemProtocol::new());
    assert_eq!(modem.on_event(MODEM_TOKEN), LoopAction::Drain);
    assert_eq!(
        modem.on_incoming_data(Ok(&[0xF1, 0x55, 0x21, 0x01, 0x01, 0x00, 0x00])),
        Err(ParserError::UnknownHeaderError)
    );
    assert_eq!(modem.on_incoming_data(Ok(&[])), Ok(None));
    assert_eq!(modem.on_incoming_data(Err("x".to_string())), Err(ParserError::TransportError));
    assert_eq!(modem.on_event(7), LoopAction::Stop);
}
