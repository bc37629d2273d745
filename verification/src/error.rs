//! The single error type of the client engine. Every failure the session
//! can meet surfaces as one of these kinds; the engine never retries
//! anything itself — retry and backoff policy belongs to the caller.

use vstd::prelude::*;

verus! {

/// Why a client operation failed.
///
/// The transport-related kinds (`RunDns`, `ResolveDns`, `Connect`,
/// `SocketRead`, `SocketWrite`, `TCP`) are produced by the I/O shell
/// around the engine and only carried here; the engine itself produces
/// the protocol kinds.
#[derive(Clone, Copy, Debug, PartialEq, Eq, Structural)]
pub enum MqttClientError {
    /// The name lookup for the broker could not be run.
    RunDns,
    /// The broker name resolved to no address.
    ResolveDns,
    /// The state machine produced no action where one was owed.
    FsmUnexpectedNoAction,
    /// The state machine produced an action of the wrong kind.
    FsmUnexpectedAction,
    /// The transport connection could not be established.
    Connect,
    /// Reading from the socket failed.
    SocketRead,
    /// Writing to the socket failed.
    SocketWrite,
    /// The broker rejected the connection with this reason code.
    ConnackUnsuccessful(u8),
    /// A packet arrived that the current phase does not expect.
    UnexpectedPacket,
    /// The inbound bytes were not one well-formed packet.
    MqttPacketParsing,
    /// The broker rejected at least one requested subscription.
    AnySubscribeFailed,
    /// The transport failed while a packet was being written.
    TCP,
    /// An outbound packet did not fit the fixed write buffer.
    Capacity,
    /// Every packet identifier of this session has been handed out.
    PacketIdentifiersExhausted,
    /// An inbound publish that requires acknowledgement carried no
    /// packet identifier.
    MissingPacketIdentifier,
}

} // verus!
