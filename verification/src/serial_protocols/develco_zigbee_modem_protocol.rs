//! The Develco framing. The library knows its addressing modes and no
//! message layout, so a Develco parser refuses every buffer; it stands
//! where a second protocol plugs into the read loop.

use vstd::prelude::*;
use crate::serial_protocols::serial_port_parser::ParserError;
use crate::serial_protocols::serial_port_parser::SerialPortParser;

verus! {

/// How a Develco message addresses its destination or its source.
#[derive(Clone, Copy, Debug, PartialEq, Eq, Structural)]
pub enum AddressMode {
    Indirect,
    Group,
    Network,
    Eui,
}

/// The address that goes with an addressing mode, by its width.
#[derive(Clone, Copy, Debug, PartialEq, Eq, Structural)]
pub enum AddressLength {
    /// No address follows.
    Zero,
    /// A short address of two bytes.
    TwoBytes { address: u16 },
    /// An extended address, held in 64 bits.
    FourBytes { address: u64 },
}

impl AddressMode {
    /// The wire code of an addressing mode.
    pub open spec fn spec_code(self) -> u8 {
        match self {
            AddressMode::Indirect => 0x00,
            AddressMode::Group => 0x01,
            AddressMode::Network => 0x02,
            AddressMode::Eui => 0x03,
        }
    }

    /// The number of address bytes that follow each mode on the wire.
    pub open spec fn spec_address_length(mode: AddressMode) -> usize {
        match mode {
            AddressMode::Indirect => 0,
            AddressMode::Group => 2,
            AddressMode::Network => 2,
            AddressMode::Eui => 8,
        }
    }

    /// The addressing mode that a byte encodes, if it encodes one.
    pub open spec fn lookup(num: u8) -> Option<AddressMode> {
        if exists|m: AddressMode| #[trigger] m.spec_code() == num {
            Some(choose|m: AddressMode| #[trigger] m.spec_code() == num)
        } else {
            None
        }
    }

    /// The wire code of an addressing mode.
    #[verifier::when_used_as_spec(spec_code)]
    pub fn code(self) -> (c: u8)
        ensures
            c == self.spec_code(),
    {
        match self {
            AddressMode::Indirect => 0x00,
            AddressMode::Group => 0x01,
            AddressMode::Network => 0x02,
            AddressMode::Eui => 0x03,
        }
    }

    /// Looks a byte up among the addressing modes; `None` for a byte that
    /// encodes none.
    pub fn from(num: u8) -> (r: Option<AddressMode>)
        ensures
            r == Self::lookup(num),
    {
        let found = match num {
            0x00 => Some(AddressMode::Indirect),
            0x01 => Some(AddressMode::Group),
            0x02 => Some(AddressMode::Network),
            0x03 => Some(AddressMode::Eui),
            _ => None,
        };
        proof {
            match found {
                Some(m) => {
                    assert(m.spec_code() == num);
                },
                None => {
                    assert(forall|m: AddressMode| #[trigger] m.spec_code() != num);
                },
            }
        }
        found
    }

    /// The kind of address that goes with a mode, with the address itself
    /// still zero.
    pub fn address_length_type(mode: AddressMode) -> (length: AddressLength)
        ensures
            length == match mode {
                AddressMode::Indirect => AddressLength::Zero,
                AddressMode::Group => AddressLength::TwoBytes { address: 0 },
                AddressMode::Network => AddressLength::TwoBytes { address: 0 },
                AddressMode::Eui => AddressLength::FourBytes { address: 0 },
            },
    {
        match mode {
            AddressMode::Indirect => AddressLength::Zero,
            AddressMode::Group | AddressMode::Network => AddressLength::TwoBytes { address: 0 },
            AddressMode::Eui => AddressLength::FourBytes { address: 0 },
        }
    }

    /// The number of address bytes that follow a mode on the wire.
    #[verifier::when_used_as_spec(spec_address_length)]
    pub fn address_length(mode: AddressMode) -> (length: usize)
        ensures
            length == Self::spec_address_length(mode),
    {
        match mode {
            AddressMode::Indirect => 0,
            AddressMode::Group | AddressMode::Network => 2,
            AddressMode::Eui => 8,
        }
    }
}

/// Why a buffer is refused as a Develco message.
#[derive(Clone, Copy, Debug, PartialEq, Eq)]
pub struct DevelcoZigbeeModemError {
    pub error: &'static str,
}

impl DevelcoZigbeeModemError {
    /// The class of failure that a refusal belongs to: the message type is
    /// the header of a Develco message, and it is unknown.
    pub open spec fn spec_class(&self) -> ParserError {
        ParserError::UnknownHeaderError
    }

    /// The class of failure that a refusal belongs to.
    #[verifier::when_used_as_spec(spec_class)]
    pub fn class(&self) -> (c: ParserError)
        ensures
            c == self.spec_class(),
    {
        ParserError::UnknownHeaderError
    }
}

/// The Develco protocol as a parser for the read loop.
#[derive(Debug)]
pub struct DevelcoZigbeeModemProtocol;

impl View for DevelcoZigbeeModemProtocol {
    type V = ();

    /// A Develco parser keeps no session.
    open spec fn view(&self) -> () {
        ()
    }
}

impl DevelcoZigbeeModemProtocol {
    /// The text with which every buffer is refused.
    pub open spec fn refusal_text() -> Seq<char> {
        "Unknown message type!"@
    }

    /// A Develco parser.
    pub fn new() -> (protocol: DevelcoZigbeeModemProtocol) {
        DevelcoZigbeeModemProtocol
    }

    /// Why `buff` is refused: no message type is known to the library, so
    /// that of the buffer is unknown, whatever the buffer holds.
    pub fn refusal(&self, buff: &[u8]) -> (e: DevelcoZigbeeModemError)
        ensures
            e.error@ == Self::refusal_text(),
    {
        DevelcoZigbeeModemError { error: "Unknown message type!" }
    }
}

impl SerialPortParser for DevelcoZigbeeModemProtocol {
    /// Every buffer is refused as of unknown header.
    open spec fn answer(session: (), buff: Seq<u8>) -> Result<Option<Seq<u8>>, ParserError> {
        Err(ParserError::UnknownHeaderError)
    }

    /// There is no session to change.
    open spec fn after(session: (), buff: Seq<u8>) -> () {
        ()
    }

    /// Refuses the bytes of one read.
    fn parse(&mut self, buff: &[u8]) -> (r: Result<Option<Vec<u8>>, ParserError>) {
        Err(self.refusal(buff).class())
    }

    /// Takes the outcome of a write. A Develco parser asks for none; a
    /// failed one is a transport error all the same.
    fn reply_written(&self, written: Result<usize, String>) -> (r: Result<(), ParserError>) {
        match written {
            Ok(_) => Ok(()),
            Err(_) => Err(ParserError::TransportError),
        }
    }
}

/// Every addressing mode is found again under its own wire code.
pub proof fn law_address_mode_round_trip(mode: AddressMode)
    ensures
        AddressMode::lookup(mode.code()) == Some(mode),
{
    assert(exists|m: AddressMode| #[trigger] m.spec_code() == mode.spec_code());
}

} // verus!
