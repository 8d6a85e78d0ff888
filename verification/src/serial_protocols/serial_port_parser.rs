//! What the read loop asks of a protocol: to take the bytes of one read and
//! say what is to be sent in answer, if anything.
//!
//! A parser never touches the serial link. It hands the bytes of a reply to
//! its caller, who writes them and reports how the write went.

use vstd::prelude::*;

verus! {

/// The classes of failure that a parser reports. None of them ends the read
/// loop: the buffer at hand is dropped, and the next one is taken as it comes.
#[derive(Clone, Copy, Debug, PartialEq, Eq, Structural)]
pub enum ParserError {
    /// The buffer is not a frame: wrong marker, or a length that does not fit.
    FrameFormatError,
    /// The primary header byte is not known, or no handler answers the pair
    /// of header codes.
    UnknownHeaderError,
    /// The frame names an operation that is recognized and not supported.
    UnimplementedOperationError,
    /// Reading from or writing to the serial link failed.
    TransportError,
}

/// The answer to a buffer, with the reply taken by its view.
pub open spec fn answer_view(r: Result<Option<Vec<u8>>, ParserError>) -> Result<
    Option<Seq<u8>>,
    ParserError,
> {
    match r {
        Ok(Some(reply)) => Ok(Some(reply@)),
        Ok(None) => Ok(None),
        Err(e) => Err(e),
    }
}

/// How the write of a reply is reported back to the parser that asked for it.
pub open spec fn written_answer(written: Result<usize, String>) -> Result<(), ParserError> {
    match written {
        Ok(_) => Ok(()),
        Err(_) => Err(ParserError::TransportError),
    }
}

/// A protocol that the read loop can drive. The view of a parser is its
/// session: all that its answers depend on besides the bytes.
pub trait SerialPortParser: View + Sized {
    /// What a session answers to a buffer: `Ok(Some(reply))` where a reply is
    /// to be written to the link, `Ok(None)` where the buffer is dealt with
    /// and nothing is to be sent, or the class of the failure.
    spec fn answer(session: Self::V, buff: Seq<u8>) -> Result<Option<Seq<u8>>, ParserError>;

    /// The session after a buffer.
    spec fn after(session: Self::V, buff: Seq<u8>) -> Self::V;

    /// Takes the bytes of one read.
    fn parse(&mut self, buff: &[u8]) -> (r: Result<Option<Vec<u8>>, ParserError>)
        ensures
            answer_view(r) == Self::answer(old(self)@, buff@),
            final(self)@ == Self::after(old(self)@, buff@),
    ;

    /// Takes the outcome of writing a reply that `parse` asked for: the
    /// number of bytes written, or the link's account of the failure. A
    /// failed write is a transport error.
    fn reply_written(&self, written: Result<usize, String>) -> (r: Result<(), ParserError>)
        ensures
            r == written_answer(written),
    ;
}

} // verus!
