//! Why a buffer is refused as an MMB frame, and why a frame is not acted on.

use vstd::prelude::*;
use crate::serial_protocols::serial_port_parser::ParserError;

verus! {

/// The ways in which a buffer fails to be a frame.
#[derive(Clone, Copy, Debug, PartialEq, Eq, Structural)]
pub enum FrameError {
    /// The buffer does not open with the start-of-frame marker.
    BadSentinel,
    /// The declared payload length disagrees with the bytes that are there.
    LengthMismatch,
    /// The primary header byte is not in the code table.
    UnknownPrimary,
}

impl FrameError {
    /// The class of failure that a kind belongs to. A wrong marker and a
    /// wrong length are faults of the frame's format; an unknown primary
    /// header code is an unknown header.
    pub open spec fn spec_class(self) -> ParserError {
        match self {
            FrameError::BadSentinel => ParserError::FrameFormatError,
            FrameError::LengthMismatch => ParserError::FrameFormatError,
            FrameError::UnknownPrimary => ParserError::UnknownHeaderError,
        }
    }

    /// The class of failure that a kind belongs to.
    #[verifier::when_used_as_spec(spec_class)]
    pub fn class(self) -> (c: ParserError)
        ensures
            c == self.spec_class(),
    {
        match self {
            FrameError::BadSentinel => ParserError::FrameFormatError,
            FrameError::LengthMismatch => ParserError::FrameFormatError,
            FrameError::UnknownPrimary => ParserError::UnknownHeaderError,
        }
    }
}

/// A refused buffer: the kind of failure and the text that goes with it.
#[derive(Clone, Copy, Debug, PartialEq, Eq)]
pub struct MmbZigbeeModemError {
    pub kind: FrameError,
    pub error: &'static str,
}

impl MmbZigbeeModemError {
    /// The text that describes each kind of failure.
    pub open spec fn text_of(kind: FrameError) -> Seq<char> {
        match kind {
            FrameError::BadSentinel => "Message Format error: Can't find the START_OF_FRAME byte"@,
            FrameError::LengthMismatch =>
                "Message format error: The size of the message is different than expected"@,
            FrameError::UnknownPrimary => "Message format error: Unknown primary header"@,
        }
    }

    /// Whether this is the error of the given kind, text included.
    pub open spec fn is_kind(self, kind: FrameError) -> bool {
        self.kind == kind && self.error@ == Self::text_of(kind)
    }

    /// The error of the given kind, with its text.
    pub fn new(kind: FrameError) -> (e: MmbZigbeeModemError)
        ensures
            e.is_kind(kind),
    {
        let error: &'static str = match kind {
            FrameError::BadSentinel => "Message Format error: Can't find the START_OF_FRAME byte",
            FrameError::LengthMismatch =>
                "Message format error: The size of the message is different than expected",
            FrameError::UnknownPrimary => "Message format error: Unknown primary header",
        };
        MmbZigbeeModemError { kind, error }
    }
}

/// Why a well-formed frame was not acted on.
#[derive(Debug, PartialEq, Eq)]
pub enum DispatchError {
    /// The reply could not be written to the serial link; the text is the
    /// link's own account of the failure.
    Transport(String),
    /// The operation is recognized and deliberately not supported.
    Unimplemented,
    /// No handler is registered for the pair of header codes.
    UnknownHeader,
}

impl DispatchError {
    /// The class of failure that a dispatch error belongs to.
    pub open spec fn spec_class(&self) -> ParserError {
        match self {
            DispatchError::Transport(_) => ParserError::TransportError,
            DispatchError::Unimplemented => ParserError::UnimplementedOperationError,
            DispatchError::UnknownHeader => ParserError::UnknownHeaderError,
        }
    }

    /// The class of failure that a dispatch error belongs to.
    #[verifier::when_used_as_spec(spec_class)]
    pub fn class(&self) -> (c: ParserError)
        ensures
            c == self.spec_class(),
    {
        match self {
            DispatchError::Transport(_) => ParserError::TransportError,
            DispatchError::Unimplemented => ParserError::UnimplementedOperationError,
            DispatchError::UnknownHeader => ParserError::UnknownHeaderError,
        }
    }
}

} // verus!
