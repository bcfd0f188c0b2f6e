//! A peer-to-peer message-passing protocol layer: a self-describing wire
//! format, a framing codec that cuts a byte stream into messages, and the
//! connection state machine that classifies and routes every incoming frame.

use vstd::prelude::*;

pub mod bytes_format;
pub mod multi_service;
pub mod peer;
pub mod wire_format;

pub use bytes_format::BytesFormat;
pub use bytes_format::HEADER_LEN;
pub use multi_service::MulServTokioCodec;
pub use peer::Call;
pub use peer::Peer;
pub use peer::PeerAction;
pub use peer::PeerState;
pub use peer::PeerView;
pub use peer::close_connection::CloseConnection;
pub use peer::connection_error::ConnectionError;
pub use peer::incoming::DispatchOutcome;
pub use peer::incoming::RelayCallOutcome;
pub use peer::peer_err::PeerErr;
pub use peer::peer_err::PeerErrCtx;
pub use peer::peer_event::PeerEvent;
pub use wire_format::unique_id::UniqueID;
pub use wire_format::unique_id::ServiceID;
pub use wire_format::unique_id::ConnID;
pub use wire_format::WireErr;

verus! {

} // verus!
