//! The MMB frame codec: from the bytes of one read to a frame, or to the
//! reason why they are none.
//!
//! A frame on the wire is a fixed header of five bytes (marker, primary
//! header code, secondary header code, sequence number, payload length),
//! the payload, and a checksum of two bytes. The length byte counts one more
//! than the payload holds.

use vstd::prelude::*;
use vstd::slice::slice_subrange;
use vstd::slice::slice_to_vec;
use crate::serial_protocols::mmb_errors::FrameError;
use crate::serial_protocols::mmb_errors::MmbZigbeeModemError;
use crate::serial_protocols::mmb_headers::HeaderNothing;
use crate::serial_protocols::mmb_headers::PrimaryHeader;
use crate::serial_protocols::mmb_headers::SecondaryHeader;

verus! {

/// Marker byte that opens every frame.
pub const START_OF_FRAME: u8 = 0xF1;

/// Bytes of the fixed header.
pub const HEADER_SIZE: usize = 5;

/// Bytes of the trailing checksum.
pub const CHECKSUM_SIZE: usize = 2;

/// Whether the bytes open with the start-of-frame marker.
pub open spec fn has_sentinel(bytes: Seq<u8>) -> bool {
    bytes.len() > 0 && bytes[0] == START_OF_FRAME
}

/// The fixed header of a frame.
#[derive(Clone, Copy, Debug, PartialEq, Eq)]
pub struct Header {
    pub start_of_frame: u8,
    pub primary_header: PrimaryHeader,
    pub secondary_header: SecondaryHeader,
    pub frame_seq_number: u8,
    pub payload_length: i32,
}

impl Header {
    /// The header that the first five of `bytes` spell out: each field holds
    /// the value of its byte, the two header codes as the code tables read
    /// them.
    pub open spec fn decoded(bytes: Seq<u8>) -> Header
        recommends
            bytes.len() >= HEADER_SIZE,
            PrimaryHeader::in_table(bytes[1]),
    {
        let primary_header = PrimaryHeader::lookup(bytes[1]).unwrap();
        Header {
            start_of_frame: bytes[0],
            primary_header,
            secondary_header: SecondaryHeader::resolve(primary_header, bytes[2]),
            frame_seq_number: bytes[3],
            payload_length: bytes[4] as i32,
        }
    }

    /// Why `bytes` do not begin with a header, or `None` where they do. The
    /// marker is looked at first, then the size, then the primary header code.
    pub open spec fn failure(bytes: Seq<u8>) -> Option<FrameError> {
        if !has_sentinel(bytes) {
            Some(FrameError::BadSentinel)
        } else if bytes.len() < HEADER_SIZE {
            Some(FrameError::LengthMismatch)
        } else if !PrimaryHeader::in_table(bytes[1]) {
            Some(FrameError::UnknownPrimary)
        } else {
            None
        }
    }

    /// Reads the fixed header from the front of `buff`.
    pub fn new(buff: &[u8]) -> (r: Result<Header, MmbZigbeeModemError>)
        ensures
            match r {
                Ok(h) => Self::failure(buff@) is None && h == Self::decoded(buff@),
                Err(e) => Self::failure(buff@) matches Some(kind) && e.is_kind(kind),
            },
    {
        if buff.len() == 0 || buff[0] != START_OF_FRAME {
            return Err(MmbZigbeeModemError::new(FrameError::BadSentinel));
        }
        if buff.len() < HEADER_SIZE {
            return Err(MmbZigbeeModemError::new(FrameError::LengthMismatch));
        }
        match PrimaryHeader::from(buff[1]) {
            Err(e) => Err(e),
            Ok(primary_header) => Ok(
                Header {
                    start_of_frame: START_OF_FRAME,
                    primary_header,
                    secondary_header: SecondaryHeader::from(&primary_header, buff[2]),
                    frame_seq_number: buff[3],
                    payload_length: buff[4] as i32,
                },
            ),
        }
    }
}

/// Whether the length byte agrees with the size of `bytes`: between the
/// header and the checksum lie as many bytes as the length byte says, less one.
pub open spec fn consistent_length(bytes: Seq<u8>) -> bool {
    &&& bytes.len() >= HEADER_SIZE + CHECKSUM_SIZE
    &&& bytes.len() - (HEADER_SIZE + CHECKSUM_SIZE) == bytes[4] - 1
}

/// One protocol message: header, payload and checksum.
#[derive(Debug, PartialEq, Eq)]
pub struct MmbZigbeeModemMessage {
    pub header: Header,
    pub payload: Vec<u8>,
    pub checksum: [u8; 2],
}

impl MmbZigbeeModemMessage {
    /// The invariant of a frame: it opens with the marker, and its length
    /// field counts one more than the payload holds.
    pub open spec fn well_formed(self) -> bool {
        &&& self.header.start_of_frame == START_OF_FRAME
        &&& self.header.payload_length == self.payload@.len() + 1
    }

    /// Whether this message is what `bytes` spell out: the header is that of
    /// the first five bytes, the payload is every byte between the header and
    /// the checksum, and the checksum is the last two bytes.
    pub open spec fn decodes(self, bytes: Seq<u8>) -> bool
        recommends
            bytes.len() >= HEADER_SIZE + CHECKSUM_SIZE,
    {
        &&& self.header == Header::decoded(bytes)
        &&& self.payload@ == bytes.subrange(HEADER_SIZE as int, bytes.len() - CHECKSUM_SIZE)
        &&& self.checksum@ == bytes.subrange(bytes.len() - CHECKSUM_SIZE, bytes.len() as int)
    }

    /// Why `bytes` are not a frame, or `None` where they are one. The marker
    /// is looked at first, then the length, then the primary header code.
    pub open spec fn failure(bytes: Seq<u8>) -> Option<FrameError> {
        if !has_sentinel(bytes) {
            Some(FrameError::BadSentinel)
        } else if !consistent_length(bytes) {
            Some(FrameError::LengthMismatch)
        } else if !PrimaryHeader::in_table(bytes[1]) {
            Some(FrameError::UnknownPrimary)
        } else {
            None
        }
    }

    /// Decodes the bytes of one read. The buffer is a frame where it opens
    /// with the marker, its length byte agrees with its size and its primary
    /// header code is known; the frame then holds every field as the bytes
    /// give it. The checksum is copied and not checked.
    pub fn new(buff: &[u8]) -> (r: Result<MmbZigbeeModemMessage, MmbZigbeeModemError>)
        ensures
            match r {
                Ok(m) => Self::failure(buff@) is None && m.decodes(buff@) && m.well_formed(),
                Err(e) => Self::failure(buff@) matches Some(kind) && e.is_kind(kind),
            },
    {
        let size = buff.len();
        if size == 0 || buff[0] != START_OF_FRAME {
            return Err(MmbZigbeeModemError::new(FrameError::BadSentinel));
        }
        if size < HEADER_SIZE + CHECKSUM_SIZE || size - (HEADER_SIZE + CHECKSUM_SIZE) + 1
            != buff[4] as usize {
            return Err(MmbZigbeeModemError::new(FrameError::LengthMismatch));
        }
        let header = match Header::new(buff) {
            Ok(header) => header,
            Err(e) => {
                return Err(e);
            },
        };
        let payload = slice_to_vec(slice_subrange(buff, HEADER_SIZE, size - CHECKSUM_SIZE));
        let checksum = [buff[size - 2], buff[size - 1]];
        assert(checksum@ == buff@.subrange(size - CHECKSUM_SIZE, size as int));
        Ok(MmbZigbeeModemMessage { header, payload, checksum })
    }

    /// Whether the checksum is accepted. No checksum algorithm is defined for
    /// the protocol, so every frame is accepted as it came.
    pub fn checksum_accepted(&self) -> (accepted: bool)
        ensures
            accepted,
    {
        true
    }
}

/// A buffer that does not open with the marker is refused as `BadSentinel`,
/// whatever its other bytes are.
pub proof fn law_bad_sentinel(bytes: Seq<u8>)
    requires
        bytes.len() == 0 || bytes[0] != START_OF_FRAME,
    ensures
        MmbZigbeeModemMessage::failure(bytes) == Some(FrameError::BadSentinel),
{
}

/// A buffer that opens with the marker and whose length byte disagrees with
/// its size is refused as `LengthMismatch`.
pub proof fn law_length_mismatch(bytes: Seq<u8>)
    requires
        has_sentinel(bytes),
        !consistent_length(bytes),
    ensures
        MmbZigbeeModemMessage::failure(bytes) == Some(FrameError::LengthMismatch),
{
}

/// A buffer that opens with the marker, whose length byte agrees with its
/// size and whose primary header code is in the code table is a frame, and
/// the message that decodes it gives back each header byte, the sequence
/// number, the payload and the checksum as the buffer holds them. The
/// secondary header gives back its byte where the byte names an operation
/// under the primary header, and is the unresolved marker where it names
/// none.
pub proof fn law_consistent_frame_is_reproduced(bytes: Seq<u8>, m: MmbZigbeeModemMessage)
    requires
        has_sentinel(bytes),
        consistent_length(bytes),
        PrimaryHeader::in_table(bytes[1]),
        m.decodes(bytes),
    ensures
        MmbZigbeeModemMessage::failure(bytes) is None,
        m.header.start_of_frame == bytes[0],
        m.header.primary_header.code() == bytes[1],
        SecondaryHeader::resolvable(m.header.primary_header, bytes[2])
            ==> m.header.secondary_header.code() == bytes[2],
        !SecondaryHeader::resolvable(m.header.primary_header, bytes[2])
            ==> m.header.secondary_header == SecondaryHeader::HeaderNothing(HeaderNothing::Unknown),
        m.header.frame_seq_number == bytes[3],
        m.header.payload_length == bytes[4],
        m.payload@.len() == bytes[4] - 1,
        forall|i: int| 0 <= i < m.payload@.len() ==> m.payload@[i] == bytes[HEADER_SIZE + i],
        m.checksum@.len() == 2,
        m.checksum@[0] == bytes[bytes.len() - 2],
        m.checksum@[1] == bytes[bytes.len() - 1],
{
}

} // verus!
