//! The failures a session can meet, and the causes of a failed outbound
//! connection.

use vstd::prelude::*;

verus! {

/// Why an outbound connection could not be opened.
#[derive(Clone, Copy, Debug, PartialEq, Eq, Structural)]
pub enum ConnectFailure {
    /// The destination actively refused the connection.
    Refused,
    /// No route to the destination host or network.
    Unreachable,
    /// The attempt did not complete in time.
    Timeout,
    /// Any other failure.
    Other,
}

/// Everything that can go wrong while serving one client.
#[derive(Clone, Copy, Debug, PartialEq, Eq, Structural)]
pub enum SocksError {
    /// A message did not start with protocol version 5.
    ProtocolVersionMismatch,
    /// A field was truncated, or longer than its length prefix can express.
    FramingError,
    /// The address type byte names no known address family.
    UnsupportedAddressType,
    /// The command byte names neither CONNECT nor ASSOCIATE.
    UnsupportedCommand,
    /// The client did not offer "no authentication required".
    NoAcceptableAuthMethod,
    /// The destination name resolved to no usable address.
    AddressResolutionError,
    /// The outbound connection could not be opened.
    OutboundConnectionError(ConnectFailure),
    /// An I/O failure in the middle of a relay.
    RelayIOError,
    /// A relayed datagram carried a malformed or fragmented header.
    InvalidDatagramHeader,
}

} // verus!
