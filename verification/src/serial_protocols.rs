//! The framing protocols spoken over the serial link.

pub mod develco_zigbee_modem_protocol;
pub mod mmb_errors;
pub mod mmb_frame;
pub mod mmb_headers;
pub mod mmb_networks_modem_protocol;
pub mod serial_port_parser;
