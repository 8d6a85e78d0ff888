//! The MMB Networks protocol as a session: which handler answers a frame,
//! what it replies, and how far the handshake has come.

use vstd::prelude::*;
use crate::serial_protocols::mmb_errors::DispatchError;
use crate::serial_protocols::mmb_frame::consistent_length;
use crate::serial_protocols::mmb_frame::has_sentinel;
use crate::serial_protocols::mmb_frame::Header;
use crate::serial_protocols::mmb_frame::MmbZigbeeModemMessage;
use crate::serial_protocols::mmb_headers::law_network_commissioning_round_trip;
use crate::serial_protocols::mmb_headers::law_primary_round_trip;
use crate::serial_protocols::mmb_headers::law_utilities_round_trip;
use crate::serial_protocols::mmb_headers::HeaderNetworkCommissioning;
use crate::serial_protocols::mmb_headers::HeaderUtilities;
use crate::serial_protocols::mmb_headers::PrimaryHeader;
use crate::serial_protocols::mmb_headers::SecondaryHeader;
use crate::serial_protocols::serial_port_parser::ParserError;
use crate::serial_protocols::serial_port_parser::SerialPortParser;

verus! {

/// How far the handshake with the module has come.
#[derive(Clone, Copy, Debug, PartialEq, Eq, Structural)]
pub enum MmbZigbeeModemState {
    /// No handshake has been seen.
    Uninitialized,
    /// The module has asked to synchronize; the handshake is under way.
    Initializing,
    /// The module has reported the handshake complete. No frame leads out
    /// of this state.
    Initialized,
}

impl MmbZigbeeModemState {
    /// Position of a state in the lifecycle, counted from the initial state.
    pub open spec fn rank(self) -> nat {
        match self {
            MmbZigbeeModemState::Uninitialized => 0,
            MmbZigbeeModemState::Initializing => 1,
            MmbZigbeeModemState::Initialized => 2,
        }
    }
}

/// What the dispatch table holds for a pair of header codes.
#[derive(Clone, Copy, Debug, PartialEq, Eq, Structural)]
pub enum Route {
    /// The module asks to synchronize: it is sent the acknowledgement.
    HandshakeStart,
    /// The module reports the handshake complete.
    HandshakeComplete,
    /// A network operation that is accepted and changes nothing.
    Accepted,
    /// An operation that is recognized and refused.
    Unsupported,
    /// The table has no entry for the pair.
    Unknown,
}

/// The handlers that the dispatch table names.
pub struct MessageHandler;

impl MessageHandler {
    /// The acknowledgement that answers a startup-sync request: the five
    /// ASCII digits "12345".
    pub open spec fn startup_reply() -> Seq<u8> {
        seq![0x31u8, 0x32u8, 0x33u8, 0x34u8, 0x35u8]
    }

    /// How the outcome of writing the acknowledgement ends the dispatch: a
    /// write that the link accepted is success, whatever count it reports;
    /// a refused one is a transport error that carries the link's text.
    pub open spec fn written_result(written: Result<usize, String>) -> Result<(), DispatchError> {
        match written {
            Ok(_) => Ok(()),
            Err(text) => Err(DispatchError::Transport(text)),
        }
    }

    /// Answers a startup-sync request: the bytes to write to the link.
    pub fn startup(msg: &MmbZigbeeModemMessage) -> (reply: Vec<u8>)
        ensures
            reply@ == Self::startup_reply(),
    {
        let reply: Vec<u8> = vec![0x31u8, 0x32u8, 0x33u8, 0x34u8, 0x35u8];
        assert(reply@ =~= Self::startup_reply());
        reply
    }

    /// Ends the dispatch of a startup-sync request, given how the write of
    /// the acknowledgement went.
    pub fn startup_written(written: Result<usize, String>) -> (r: Result<(), DispatchError>)
        ensures
            r == Self::written_result(written),
    {
        match written {
            Ok(_) => Ok(()),
            Err(text) => Err(DispatchError::Transport(text)),
        }
    }

    /// Accepts a request to form a network. Nothing is done about it.
    pub fn form_network(msg: &MmbZigbeeModemMessage) -> (r: Result<(), DispatchError>)
        ensures
            r == Ok::<(), DispatchError>(()),
    {
        Ok(())
    }

    /// Accepts a request to join a network. Nothing is done about it.
    pub fn join_network(msg: &MmbZigbeeModemMessage) -> (r: Result<(), DispatchError>)
        ensures
            r == Ok::<(), DispatchError>(()),
    {
        Ok(())
    }

    /// Refuses an operation that is recognized and not supported.
    pub fn not_implemented() -> (r: Result<(), DispatchError>)
        ensures
            r == Err::<(), DispatchError>(DispatchError::Unimplemented),
    {
        Err(DispatchError::Unimplemented)
    }
}

/// The session with the module: the state of the handshake. It changes only
/// as frames from the module are processed.
#[derive(Debug)]
pub struct MmbZigbeeModemProtocol {
    state: MmbZigbeeModemState,
}

impl View for MmbZigbeeModemProtocol {
    type V = MmbZigbeeModemState;

    /// A session is its handshake state.
    closed spec fn view(&self) -> MmbZigbeeModemState {
        self.state
    }
}

impl MmbZigbeeModemProtocol {
    /// Whether the dispatch table has an entry for a pair of header codes.
    pub open spec fn in_dispatch_table(
        primary_header: PrimaryHeader,
        secondary_header: SecondaryHeader,
    ) -> bool {
        ||| primary_header == PrimaryHeader::Utility && (secondary_header
            == SecondaryHeader::HeaderUtilities(HeaderUtilities::StartupSyncRequest)
            || secondary_header == SecondaryHeader::HeaderUtilities(
            HeaderUtilities::StartupSyncComplete,
        ))
        ||| primary_header == PrimaryHeader::NetworkCommissioning && (secondary_header
            == SecondaryHeader::HeaderNetworkCommissioning(HeaderNetworkCommissioning::FormNetwork)
            || secondary_header == SecondaryHeader::HeaderNetworkCommissioning(
            HeaderNetworkCommissioning::JoinNetwork,
        ) || secondary_header == SecondaryHeader::HeaderNetworkCommissioning(
            HeaderNetworkCommissioning::LeaveNetwork,
        ) || secondary_header == SecondaryHeader::HeaderNetworkCommissioning(
            HeaderNetworkCommissioning::NetworkAutoJoin,
        ))
    }

    /// The dispatch table: the entry for a pair of header codes.
    pub open spec fn route(primary_header: PrimaryHeader, secondary_header: SecondaryHeader) -> Route {
        match (primary_header, secondary_header) {
            (
                PrimaryHeader::Utility,
                SecondaryHeader::HeaderUtilities(HeaderUtilities::StartupSyncRequest),
            ) => Route::HandshakeStart,
            (
                PrimaryHeader::Utility,
                SecondaryHeader::HeaderUtilities(HeaderUtilities::StartupSyncComplete),
            ) => Route::HandshakeComplete,
            (
                PrimaryHeader::NetworkCommissioning,
                SecondaryHeader::HeaderNetworkCommissioning(HeaderNetworkCommissioning::FormNetwork),
            ) => Route::Accepted,
            (
                PrimaryHeader::NetworkCommissioning,
                SecondaryHeader::HeaderNetworkCommissioning(HeaderNetworkCommissioning::JoinNetwork),
            ) => Route::Accepted,
            (
                PrimaryHeader::NetworkCommissioning,
                SecondaryHeader::HeaderNetworkCommissioning(HeaderNetworkCommissioning::LeaveNetwork),
            ) => Route::Unsupported,
            (
                PrimaryHeader::NetworkCommissioning,
                SecondaryHeader::HeaderNetworkCommissioning(
                    HeaderNetworkCommissioning::NetworkAutoJoin,
                ),
            ) => Route::Unsupported,
            _ => Route::Unknown,
        }
    }

    /// The state that follows `state` when a frame with the given entry has
    /// been seen. A startup-sync request puts a session that is not yet
    /// initialized into `Initializing`; a startup-sync completion puts any
    /// session into `Initialized`; nothing else changes the state.
    pub open spec fn next_state(state: MmbZigbeeModemState, route: Route) -> MmbZigbeeModemState {
        match route {
            Route::HandshakeStart => if state == MmbZigbeeModemState::Initialized {
                MmbZigbeeModemState::Initialized
            } else {
                MmbZigbeeModemState::Initializing
            },
            Route::HandshakeComplete => MmbZigbeeModemState::Initialized,
            _ => state,
        }
    }

    /// What the dispatch hands back for an entry: the reply to write, nothing
    /// to write, or the error.
    pub open spec fn dispatched(route: Route) -> Result<Option<Seq<u8>>, DispatchError> {
        match route {
            Route::HandshakeStart => Ok(Some(MessageHandler::startup_reply())),
            Route::HandshakeComplete => Ok(None),
            Route::Accepted => Ok(None),
            Route::Unsupported => Err(DispatchError::Unimplemented),
            Route::Unknown => Err(DispatchError::UnknownHeader),
        }
    }

    /// What a dispatch handed back, with the reply taken by its view.
    pub open spec fn dispatch_view(r: Result<Option<Vec<u8>>, DispatchError>) -> Result<
        Option<Seq<u8>>,
        DispatchError,
    > {
        match r {
            Ok(Some(reply)) => Ok(Some(reply@)),
            Ok(None) => Ok(None),
            Err(e) => Err(e),
        }
    }

    /// A session on which no handshake has been seen.
    pub fn new() -> (protocol: MmbZigbeeModemProtocol)
        ensures
            protocol@ == MmbZigbeeModemState::Uninitialized,
    {
        MmbZigbeeModemProtocol { state: MmbZigbeeModemState::Uninitialized }
    }

    /// The state of the handshake.
    pub fn state(&self) -> (state: MmbZigbeeModemState)
        ensures
            state == self@,
    {
        self.state
    }

    /// Dispatches a frame by its pair of header codes. `Ok(Some(reply))` asks
    /// the caller to write `reply` to the link, once, and to hand the outcome
    /// to `MessageHandler::startup_written`, which ends the dispatch;
    /// `Ok(None)` is success with nothing to send. The state moves as the
    /// frame says, whether or not the reply can be written.
    pub fn process(&mut self, msg: &MmbZigbeeModemMessage) -> (r: Result<
        Option<Vec<u8>>,
        DispatchError,
    >)
        ensures
            Self::dispatch_view(r) == Self::dispatched(
                Self::route(msg.header.primary_header, msg.header.secondary_header),
            ),
            final(self)@ == Self::next_state(
                old(self)@,
                Self::route(msg.header.primary_header, msg.header.secondary_header),
            ),
    {
        match (msg.header.primary_header, msg.header.secondary_header) {
            (
                PrimaryHeader::Utility,
                SecondaryHeader::HeaderUtilities(HeaderUtilities::StartupSyncRequest),
            ) => {
                match self.state {
                    MmbZigbeeModemState::Initialized => {},
                    _ => {
                        self.state = MmbZigbeeModemState::Initializing;
                    },
                }
                Ok(Some(MessageHandler::startup(msg)))
            },
            (
                PrimaryHeader::Utility,
                SecondaryHeader::HeaderUtilities(HeaderUtilities::StartupSyncComplete),
            ) => {
                self.state = MmbZigbeeModemState::Initialized;
                Ok(None)
            },
            (
                PrimaryHeader::NetworkCommissioning,
                SecondaryHeader::HeaderNetworkCommissioning(HeaderNetworkCommissioning::FormNetwork),
            ) => match MessageHandler::form_network(msg) {
                Ok(()) => Ok(None),
                Err(e) => Err(e),
            },
            (
                PrimaryHeader::NetworkCommissioning,
                SecondaryHeader::HeaderNetworkCommissioning(HeaderNetworkCommissioning::JoinNetwork),
            ) => match MessageHandler::join_network(msg) {
                Ok(()) => Ok(None),
                Err(e) => Err(e),
            },
            (
                PrimaryHeader::NetworkCommissioning,
                SecondaryHeader::HeaderNetworkCommissioning(HeaderNetworkCommissioning::LeaveNetwork),
            ) => match MessageHandler::not_implemented() {
                Ok(()) => Ok(None),
                Err(e) => Err(e),
            },
            (
                PrimaryHeader::NetworkCommissioning,
                SecondaryHeader::HeaderNetworkCommissioning(
                    HeaderNetworkCommissioning::NetworkAutoJoin,
                ),
            ) => match MessageHandler::not_implemented() {
                Ok(()) => Ok(None),
                Err(e) => Err(e),
            },
            _ => Err(DispatchError::UnknownHeader),
        }
    }
}

impl SerialPortParser for MmbZigbeeModemProtocol {
    /// A buffer that is no frame is answered with the class of its failure;
    /// a frame is answered as the dispatch table says of its header codes.
    open spec fn answer(session: MmbZigbeeModemState, buff: Seq<u8>) -> Result<
        Option<Seq<u8>>,
        ParserError,
    > {
        match MmbZigbeeModemMessage::failure(buff) {
            Some(kind) => Err(kind.class()),
            None => {
                let header = Header::decoded(buff);
                match Self::dispatched(
                    Self::route(header.primary_header, header.secondary_header),
                ) {
                    Ok(reply) => Ok(reply),
                    Err(e) => Err(e.class()),
                }
            },
        }
    }

    /// A buffer that is no frame leaves the session as it was; a frame moves
    /// it as its header codes say.
    open spec fn after(session: MmbZigbeeModemState, buff: Seq<u8>) -> MmbZigbeeModemState {
        match MmbZigbeeModemMessage::failure(buff) {
            Some(_) => session,
            None => {
                let header = Header::decoded(buff);
                Self::next_state(
                    session,
                    Self::route(header.primary_header, header.secondary_header),
                )
            },
        }
    }

    /// Decodes the bytes of one read and dispatches the frame.
    fn parse(&mut self, buff: &[u8]) -> (r: Result<Option<Vec<u8>>, ParserError>) {
        match MmbZigbeeModemMessage::new(buff) {
            Err(e) => Err(e.kind.class()),
            Ok(msg) => match self.process(&msg) {
                Ok(reply) => Ok(reply),
                Err(e) => Err(e.class()),
            },
        }
    }

    /// Ends the dispatch of a startup-sync request, given how the write of
    /// the acknowledgement went.
    fn reply_written(&self, written: Result<usize, String>) -> (r: Result<(), ParserError>) {
        match MessageHandler::startup_written(written) {
            Ok(()) => Ok(()),
            Err(e) => Err(e.class()),
        }
    }
}

/// A pair of header codes has a handler, whether it acts or refuses, exactly
/// if the dispatch table has an entry for the pair.
pub proof fn law_route_known_iff_in_table(
    primary_header: PrimaryHeader,
    secondary_header: SecondaryHeader,
)
    ensures
        MmbZigbeeModemProtocol::route(primary_header, secondary_header) != Route::Unknown
            <==> MmbZigbeeModemProtocol::in_dispatch_table(primary_header, secondary_header),
{
}

/// A startup-sync request under the utility header asks for one write, that
/// of the acknowledgement, and the dispatch ends in success when the link
/// has accepted the write. A session that was not initialized is
/// `Initializing` afterwards.
pub proof fn law_startup_request_is_acknowledged(state: MmbZigbeeModemState, count: usize)
    ensures
        MmbZigbeeModemProtocol::dispatched(
            MmbZigbeeModemProtocol::route(
                PrimaryHeader::Utility,
                SecondaryHeader::HeaderUtilities(HeaderUtilities::StartupSyncRequest),
            ),
        ) == Ok::<Option<Seq<u8>>, DispatchError>(Some(MessageHandler::startup_reply())),
        MessageHandler::written_result(Ok(count)) == Ok::<(), DispatchError>(()),
        state != MmbZigbeeModemState::Initialized ==> MmbZigbeeModemProtocol::next_state(
            state,
            MmbZigbeeModemProtocol::route(
                PrimaryHeader::Utility,
                SecondaryHeader::HeaderUtilities(HeaderUtilities::StartupSyncRequest),
            ),
        ) == MmbZigbeeModemState::Initializing,
{
}

/// A buffer that opens with the marker, has a consistent length and carries
/// the header codes of a startup-sync request is answered with the
/// acknowledgement to write, and the session moves on: to `Initializing`
/// unless it was `Initialized`.
pub proof fn law_startup_frame_is_acknowledged(state: MmbZigbeeModemState, bytes: Seq<u8>)
    requires
        has_sentinel(bytes),
        consistent_length(bytes),
        bytes[1] == PrimaryHeader::Utility.code(),
        bytes[2] == HeaderUtilities::StartupSyncRequest.code(),
    ensures
        MmbZigbeeModemMessage::failure(bytes) is None,
        MmbZigbeeModemProtocol::answer(state, bytes) == Ok::<Option<Seq<u8>>, ParserError>(
            Some(MessageHandler::startup_reply()),
        ),
        MmbZigbeeModemProtocol::after(state, bytes) == if state
            == MmbZigbeeModemState::Initialized {
            MmbZigbeeModemState::Initialized
        } else {
            MmbZigbeeModemState::Initializing
        },
{
    law_primary_round_trip(PrimaryHeader::Utility);
    law_utilities_round_trip(HeaderUtilities::StartupSyncRequest);
}

/// A request to leave the network is a frame like any other, and its
/// dispatch is refused as not implemented: in a buffer that opens with the
/// marker and has a consistent length, the header codes of that request are
/// answered with `UnimplementedOperationError`, and the session stays as it
/// was.
pub proof fn law_leave_network_is_unimplemented(state: MmbZigbeeModemState, bytes: Seq<u8>)
    requires
        has_sentinel(bytes),
        consistent_length(bytes),
        bytes[1] == PrimaryHeader::NetworkCommissioning.code(),
        bytes[2] == HeaderNetworkCommissioning::LeaveNetwork.code(),
    ensures
        MmbZigbeeModemMessage::failure(bytes) is None,
        MmbZigbeeModemProtocol::dispatched(
            MmbZigbeeModemProtocol::route(
                PrimaryHeader::NetworkCommissioning,
                SecondaryHeader::HeaderNetworkCommissioning(HeaderNetworkCommissioning::LeaveNetwork),
            ),
        ) == Err::<Option<Seq<u8>>, DispatchError>(DispatchError::Unimplemented),
        MmbZigbeeModemProtocol::answer(state, bytes) == Err::<Option<Seq<u8>>, ParserError>(
            ParserError::UnimplementedOperationError,
        ),
        MmbZigbeeModemProtocol::after(state, bytes) == state,
{
    law_primary_round_trip(PrimaryHeader::NetworkCommissioning);
    law_network_commissioning_round_trip(HeaderNetworkCommissioning::LeaveNetwork);
}

/// A frame whose pair of header codes has no entry in the dispatch table is
/// refused as of unknown header, and the session stays as it was.
pub proof fn law_unlisted_pair_is_unknown(
    state: MmbZigbeeModemState,
    primary_header: PrimaryHeader,
    secondary_header: SecondaryHeader,
)
    requires
        !MmbZigbeeModemProtocol::in_dispatch_table(primary_header, secondary_header),
    ensures
        MmbZigbeeModemProtocol::dispatched(
            MmbZigbeeModemProtocol::route(primary_header, secondary_header),
        ) == Err::<Option<Seq<u8>>, DispatchError>(DispatchError::UnknownHeader),
        DispatchError::UnknownHeader.class() == ParserError::UnknownHeaderError,
        MmbZigbeeModemProtocol::next_state(
            state,
            MmbZigbeeModemProtocol::route(primary_header, secondary_header),
        ) == state,
{
}

/// A frame whose header codes have no entry in the dispatch table is
/// answered with `UnknownHeaderError`, and the session stays as it was.
pub proof fn law_unlisted_frame_is_unknown(state: MmbZigbeeModemState, bytes: Seq<u8>)
    requires
        MmbZigbeeModemMessage::failure(bytes) is None,
        !MmbZigbeeModemProtocol::in_dispatch_table(
            Header::decoded(bytes).primary_header,
            Header::decoded(bytes).secondary_header,
        ),
    ensures
        MmbZigbeeModemProtocol::answer(state, bytes) == Err::<Option<Seq<u8>>, ParserError>(
            ParserError::UnknownHeaderError,
        ),
        MmbZigbeeModemProtocol::after(state, bytes) == state,
{
}

/// The handshake only moves forward: no frame takes a session to an earlier
/// state, and no frame takes it out of `Initialized`.
pub proof fn law_state_never_goes_back(state: MmbZigbeeModemState, route: Route)
    ensures
        MmbZigbeeModemProtocol::next_state(state, route).rank() >= state.rank(),
        state == MmbZigbeeModemState::Initialized ==> MmbZigbeeModemProtocol::next_state(
            state,
            route,
        ) == MmbZigbeeModemState::Initialized,
{
}

/// Only the two handshake frames change the state of a session.
pub proof fn law_only_handshake_moves_state(state: MmbZigbeeModemState, route: Route)
    requires
        route != Route::HandshakeStart,
        route != Route::HandshakeComplete,
    ensures
        MmbZigbeeModemProtocol::next_state(state, route) == state,
{
}

} // verus!
