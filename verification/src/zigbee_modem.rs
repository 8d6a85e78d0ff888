//! The decisions of the read loop. The loop itself, which waits on the
//! serial device and reads and writes it, belongs to the program that drives
//! the modem; what it does with each event is decided here.
//!
//! The loop registers the device once, under `MODEM_TOKEN`, and then waits.
//! Each readiness event goes to `on_event`. Where that says `Drain`, the
//! loop reads once into a buffer of `READ_BUFFER_SIZE` bytes and hands the
//! outcome to `on_incoming_data`; where that asks for a reply, the loop
//! writes it and hands the outcome to `on_reply_written`. Then it waits
//! again. Where `on_event` says `Stop`, the loop ends.

use vstd::prelude::*;
use crate::serial_protocols::mmb_frame::START_OF_FRAME;
use crate::serial_protocols::mmb_networks_modem_protocol::MmbZigbeeModemProtocol;
use crate::serial_protocols::mmb_networks_modem_protocol::MmbZigbeeModemState;
use crate::serial_protocols::serial_port_parser::answer_view;
use crate::serial_protocols::serial_port_parser::written_answer;
use crate::serial_protocols::serial_port_parser::ParserError;
use crate::serial_protocols::serial_port_parser::SerialPortParser;

verus! {

/// The token under which the serial device is registered for readiness.
pub const MODEM_TOKEN: usize = 1;

/// The size of the buffer that one read fills at most.
pub const READ_BUFFER_SIZE: usize = 256;

/// What the loop does about a readiness event.
#[derive(Clone, Copy, Debug, PartialEq, Eq, Structural)]
pub enum LoopAction {
    /// The serial device is readable: read once and process what came.
    Drain,
    /// The event is not the serial device's: the loop ends.
    Stop,
}

/// The modem as the read loop sees it: the parser that takes what is read.
pub struct ZigbeeModem<T: SerialPortParser> {
    parser: T,
}

impl<T: SerialPortParser> ZigbeeModem<T> {
    /// The session of the modem's parser.
    pub closed spec fn session(&self) -> T::V {
        self.parser@
    }

    /// What the loop does about the readiness event of a token: only the
    /// serial device's own token is drained.
    pub open spec fn action_for(token: usize) -> LoopAction {
        if token == MODEM_TOKEN {
            LoopAction::Drain
        } else {
            LoopAction::Stop
        }
    }

    /// What the outcome of a read is answered with. A failed read is a
    /// transport error; a read of no bytes is dealt with as it is; a read of
    /// some bytes is answered by the parser, which is given exactly those.
    pub open spec fn read_answer(session: T::V, read: Result<Seq<u8>, String>) -> Result<
        Option<Seq<u8>>,
        ParserError,
    > {
        match read {
            Err(_) => Err(ParserError::TransportError),
            Ok(bytes) => if bytes.len() == 0 {
                Ok(None)
            } else {
                T::answer(session, bytes)
            },
        }
    }

    /// The session after the outcome of a read: only a read of some bytes
    /// reaches the parser.
    pub open spec fn session_after_read(session: T::V, read: Result<Seq<u8>, String>) -> T::V {
        match read {
            Err(_) => session,
            Ok(bytes) => if bytes.len() == 0 {
                session
            } else {
                T::after(session, bytes)
            },
        }
    }

    /// The outcome of a read, with the bytes taken by their view.
    pub open spec fn read_view(read: Result<&[u8], String>) -> Result<Seq<u8>, String> {
        match read {
            Ok(bytes) => Ok(bytes@),
            Err(text) => Err(text),
        }
    }

    /// A modem that hands what is read to `parser`.
    pub fn new(parser: T) -> (modem: ZigbeeModem<T>)
        ensures
            modem.session() == parser@,
    {
        ZigbeeModem { parser }
    }

    /// The modem's parser.
    pub fn parser(&self) -> (parser: &T)
        ensures
            parser@ == self.session(),
    {
        &self.parser
    }

    /// Decides what the loop does about a readiness event.
    pub fn on_event(&self, token: usize) -> (action: LoopAction)
        ensures
            action == Self::action_for(token),
    {
        if token == MODEM_TOKEN {
            LoopAction::Drain
        } else {
            LoopAction::Stop
        }
    }

    /// Takes the outcome of one read of the serial device: the bytes that
    /// were read, or the device's account of the failure. `Ok(Some(reply))`
    /// asks the loop to write `reply` and to report with `on_reply_written`.
    /// An error is for the loop to log; it goes on either way.
    pub fn on_incoming_data(&mut self, read: Result<&[u8], String>) -> (r: Result<
        Option<Vec<u8>>,
        ParserError,
    >)
        ensures
            answer_view(r) == Self::read_answer(old(self).session(), Self::read_view(read)),
            final(self).session() == Self::session_after_read(
                old(self).session(),
                Self::read_view(read),
            ),
    {
        match read {
            Err(_) => Err(ParserError::TransportError),
            Ok(bytes) => {
                if bytes.len() == 0 {
                    Ok(None)
                } else {
                    self.parser.parse(bytes)
                }
            },
        }
    }

    /// Takes the outcome of writing a reply. An error is for the loop to
    /// log; it goes on either way.
    pub fn on_reply_written(&self, written: Result<usize, String>) -> (r: Result<(), ParserError>)
        ensures
            r == written_answer(written),
    {
        self.parser.reply_written(written)
    }
}

/// A read that does not open with the start-of-frame marker is dropped by a
/// modem that speaks the MMB protocol: it is answered as a fault of the
/// frame's format, no reply is asked for, the session stays as it was, and
/// the next readiness event of the device is drained like any other.
pub proof fn law_bad_sentinel_is_dropped(session: MmbZigbeeModemState, bytes: Seq<u8>)
    requires
        bytes.len() > 0,
        bytes[0] != START_OF_FRAME,
    ensures
        ZigbeeModem::<MmbZigbeeModemProtocol>::read_answer(session, Ok(bytes)) == Err::<
            Option<Seq<u8>>,
            ParserError,
        >(ParserError::FrameFormatError),
        ZigbeeModem::<MmbZigbeeModemProtocol>::session_after_read(session, Ok(bytes)) == session,
        ZigbeeModem::<MmbZigbeeModemProtocol>::action_for(MODEM_TOKEN) == LoopAction::Drain,
{
}

/// Whatever was read, and however reading or writing went, the loop stops
/// for one reason only: a readiness event under a token that is not the
/// serial device's.
pub proof fn law_loop_stops_on_foreign_token_only(token: usize)
    ensures
        ZigbeeModem::<MmbZigbeeModemProtocol>::action_for(token) == LoopAction::Stop <==> token
            != MODEM_TOKEN,
{
}

} // verus!
