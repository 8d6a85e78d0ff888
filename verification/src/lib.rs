//! Host side of a serial link to a Zigbee radio module: the frame codec, the
//! two-level header vocabulary, the session state machine and the decisions
//! of the read loop, all as functions on plain values.

pub mod serial_protocols;
pub mod zigbee_modem;
