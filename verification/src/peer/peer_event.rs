//! Events a peer reports to its observers, so that an application can notice
//! errors and connection loss and react — say, by dropping its addresses and
//! reconnecting.

use vstd::prelude::*;

use crate::peer::connection_error::ConnectionError;

verus! {

/// What observers of a connection are told.
#[derive(Debug, Clone, PartialEq, Eq)]
pub enum PeerEvent {
    /// The connection was closed locally.
    Closed,
    /// The remote end closed the connection.
    ClosedByRemote,
    /// A connection-level error happened here.
    Error(ConnectionError),
    /// The remote peer reported a connection-level error.
    RemoteError(ConnectionError),
}

} // verus!
