//! Classification and routing of everything that arrives on a connection.
//!
//! Every incoming frame lands in `handle_incoming`, which reads two fields
//! and the tables to decide what the frame is:
//!
//! - a null service id marks a connection-level error message from the
//!   remote: it is decoded, reported to observers, and — if its correlation
//!   id matches an outstanding call — delivered to that caller;
//! - otherwise a null connection id marks a one-way send, routed to a local
//!   handler, a relay, or answered with an unknown-service error;
//! - otherwise a connection id with an outstanding entry marks the response
//!   to an earlier local call, which it completes;
//! - anything else is an incoming call, routed like a send but correlated,
//!   so the eventual response quotes the same connection id.
//!
//! Dispatch and relaying run on background tasks; their outcomes come back
//! through the `handle_*_outcome` handlers here, which decide what goes back
//! on the wire. An unparsable frame, or an unparsable error payload, means
//! the byte stream itself can no longer be trusted, and the connection
//! closes; failures scoped to one request — unknown service, a handler's
//! internal error, a vanished relay — are answered without closing.

use vstd::prelude::*;

use crate::bytes_format::BytesFormat;
use crate::bytes_format::spec_cid_of;
use crate::bytes_format::spec_frame_bytes;
use crate::bytes_format::spec_msg_of;
use crate::bytes_format::spec_sid_of;
use crate::peer::Peer;
use crate::peer::PeerAction;
use crate::peer::PeerState;
use crate::peer::connection_error::ConnectionError;
use crate::peer::connection_error::spec_conn_err_bytes;
use crate::peer::connection_error::spec_conn_err_valid;
use crate::peer::peer_event::PeerEvent;
use crate::peer::is_err_frame;
use crate::peer::is_send_frame;
use crate::peer::is_unknown_service_err;
use crate::peer::is_failed_relay_err;
use crate::peer::spec_failed_relay_bytes;
use crate::peer::spec_unknown_service_bytes;
use crate::wire_format::unique_id::ConnID;
use crate::wire_format::unique_id::ServiceID;
use crate::wire_format::unique_id::UniqueID;

verus! {

/// How the registry's dispatch of one frame went, as reported back by the
/// runtime: the work was spawned, could not be spawned, or the registry
/// refused it.
#[derive(Debug, Clone, Copy, PartialEq, Eq, Structural)]
pub enum DispatchOutcome {
    /// The registry produced a unit of work and it runs in the background.
    Spawned,
    /// The registry produced work but the task could not be spawned.
    SpawnFailed,
    /// The registry could not deserialize the payload: the frame reached a
    /// handler of the wrong shape, so the stream may be desynchronized.
    Deserialize,
    /// An internal downcast in the registry failed.
    Downcast,
    /// The registry knows no handler for the service after all.
    UnknownService,
}

/// How a call forwarded to a relay came back.
#[derive(Debug, PartialEq, Eq)]
pub enum RelayCallOutcome {
    /// The relayed remote answered with this frame.
    Response(BytesFormat),
    /// The relayed remote reported a connection error for the call.
    RemoteError(ConnectionError),
    /// The relay connection vanished after the call was forwarded, before a
    /// response came back.
    ChannelDropped,
    /// The call could not be handed to the relay at all.
    CallFailed,
}

/// True of an action telling observers that the remote reported the error
/// whose encoding is `pl`.
pub open spec fn is_remote_error_emit(a: PeerAction, pl: Seq<u8>) -> bool {
    a matches PeerAction::EmitEvent { event }
        && (event matches PeerEvent::RemoteError(e) && spec_conn_err_bytes(e) == pl)
}

/// True of an action completing the call under `token` with the remote
/// error whose encoding is `pl`.
pub open spec fn is_complete_err(a: PeerAction, token: u64, pl: Seq<u8>) -> bool {
    a matches PeerAction::CompleteResponse { token: t, response }
        && t == token && (response matches Err(e) && spec_conn_err_bytes(e) == pl)
}

/// True of an action completing the call under `token` with the response
/// frame whose bytes are `bytes`.
pub open spec fn is_complete_ok(a: PeerAction, token: u64, bytes: Seq<u8>) -> bool {
    a matches PeerAction::CompleteResponse { token: t, response }
        && t == token && (response matches Ok(f) && f@ == bytes)
}

/// True of an action telling observers about an unknown-service error
/// naming `sid`.
pub open spec fn is_emit_unknown_service(a: PeerAction, sid: u128) -> bool {
    a matches PeerAction::EmitEvent { event }
        && (event matches PeerEvent::Error(e) && is_unknown_service_err(e, sid))
}

/// True of an action telling observers about a failed-to-relay error
/// naming `sid`.
pub open spec fn is_emit_failed_relay(a: PeerAction, sid: u128) -> bool {
    a matches PeerAction::EmitEvent { event }
        && (event matches PeerEvent::Error(e) && is_failed_relay_err(e, sid))
}

impl Peer {
    /// Classifies and routes one incoming frame — the central decision of
    /// the protocol. The contract walks the decision tree case by case; on a
    /// closed connection nothing has any further effect. Only a frame whose
    /// error payload fails to parse moves the connection towards closing;
    /// every other outcome leaves it open, and a send for a service known in
    /// `services` dispatches exactly once and never touches the relay
    /// tables, while one known only in `relayed` forwards exactly once and
    /// invokes no local handler.
    pub fn handle_incoming(&mut self, frame: BytesFormat) -> (r: Vec<PeerAction>)
        requires
            old(self).wf(),
            frame.wf(),
        ensures
            final(self).wf(),
            ({
                let b = frame@;
                let sid = spec_sid_of(b);
                let cid = spec_cid_of(b);
                let pl = spec_msg_of(b);
                let v0 = old(self)@;
                let v1 = final(self)@;
                let acts = r@;
                &&& (v0.state is Closed ==> v1 == v0 && acts.len() == 0)
                &&& (!(v0.state is Closed) ==> {
                    &&& v1.services == v0.services
                    &&& v1.relayed == v0.relayed
                    &&& v1.relays == v0.relays
                    &&& (sid == 0 && spec_conn_err_valid(pl) ==> {
                        &&& v1.state == v0.state
                        &&& (!v0.responses.dom().contains(cid) ==> {
                            &&& v1.responses == v0.responses
                            &&& acts.len() == 1
                            &&& is_remote_error_emit(acts[0], pl)
                        })
                        &&& (v0.responses.dom().contains(cid) ==> {
                            &&& v1.responses == v0.responses.remove(cid)
                            &&& acts.len() == 2
                            &&& is_remote_error_emit(acts[0], pl)
                            &&& is_complete_err(acts[1], v0.responses[cid], pl)
                        })
                    })
                    &&& (sid == 0 && !spec_conn_err_valid(pl) ==> {
                        &&& v1.state is Closing
                        &&& v1.responses == v0.responses
                        &&& acts.len() == 3
                        &&& acts[0] == (PeerAction::EmitEvent {
                            event: PeerEvent::Error(ConnectionError::Deserialize),
                        })
                        &&& is_err_frame(acts[1], 0, ConnectionError::Deserialize)
                        &&& acts[2] == (PeerAction::RequestClose { remote: false })
                    })
                    &&& (sid != 0 && cid == 0 ==> {
                        &&& v1.state == v0.state
                        &&& v1.responses == v0.responses
                        &&& (v0.services.dom().contains(sid) ==> acts.len() == 1
                            && (acts[0] matches PeerAction::SendToService { sm, frame: f }
                                && sm == v0.services[sid] && f@ == b))
                        &&& (!v0.services.dom().contains(sid) && v0.relayed.dom().contains(sid)
                            ==> acts.len() == 1
                            && (acts[0] matches PeerAction::ForwardToRelay { relay, frame: f }
                                && relay == v0.relayed[sid] && f@ == b))
                        &&& (!v0.services.dom().contains(sid) && !v0.relayed.dom().contains(sid)
                            ==> acts.len() == 2
                            && is_send_frame(
                                acts[0],
                                spec_frame_bytes(0, 0, spec_unknown_service_bytes(sid)),
                            )
                            && is_emit_unknown_service(acts[1], sid))
                    })
                    &&& (sid != 0 && cid != 0 && v0.responses.dom().contains(cid) ==> {
                        &&& v1.state == v0.state
                        &&& v1.responses == v0.responses.remove(cid)
                        &&& acts.len() == 1
                        &&& is_complete_ok(acts[0], v0.responses[cid], b)
                    })
                    &&& (sid != 0 && cid != 0 && !v0.responses.dom().contains(cid) ==> {
                        &&& v1.state == v0.state
                        &&& v1.responses == v0.responses
                        &&& (v0.services.dom().contains(sid) ==> acts.len() == 1
                            && (acts[0] matches PeerAction::CallService { sm, frame: f }
                                && sm == v0.services[sid] && f@ == b))
                        &&& (!v0.services.dom().contains(sid) && v0.relayed.dom().contains(sid)
                            ==> acts.len() == 1
                            && (acts[0] matches PeerAction::CallRelay { relay, frame: f }
                                && relay == v0.relayed[sid] && f@ == b))
                        &&& (!v0.services.dom().contains(sid) && !v0.relayed.dom().contains(sid)
                            ==> acts.len() == 2
                            && is_send_frame(
                                acts[0],
                                spec_frame_bytes(0, cid, spec_unknown_service_bytes(sid)),
                            )
                            && is_emit_unknown_service(acts[1], sid))
                    })
                })
            }),
    {
        let mut actions: Vec<PeerAction> = Vec::new();
        if let PeerState::Closed = self.state() {
            return actions;
        }
        let sid = frame.service();
        let cid = frame.conn_id();
        if sid.is_null() {
            // A connection-level message from the remote: its payload is a
            // serialized connection error.
            let payload = frame.mesg();
            match ConnectionError::decode(&payload) {
                Some(err) => {
                    let err2 = err.duplicate();
                    actions.push(PeerAction::EmitEvent { event: PeerEvent::RemoteError(err) });
                    match self.remove_response(cid.id) {
                        Some(token) => {
                            actions.push(PeerAction::CompleteResponse {
                                token,
                                response: Err(err2),
                            });
                        },
                        None => {},
                    }
                },
                None => {
                    // The error payload itself does not parse: an
                    // unrecoverable protocol violation, treated as stream
                    // corruption.
                    actions.push(PeerAction::EmitEvent {
                        event: PeerEvent::Error(ConnectionError::Deserialize),
                    });
                    self.send_err(
                        &mut actions,
                        UniqueID::null(),
                        &ConnectionError::Deserialize,
                        true,
                    );
                },
            }
        } else if cid.is_null() {
            // A one-way send.
            match self.lookup_service(sid.id) {
                Some(sm) => {
                    actions.push(PeerAction::SendToService { sm, frame });
                },
                None => match self.lookup_relayed(sid.id) {
                    Some(relay) => {
                        actions.push(PeerAction::ForwardToRelay { relay, frame });
                    },
                    None => {
                        let err = ConnectionError::UnknownService(sid.to_bytes());
                        self.send_err(&mut actions, UniqueID::null(), &err, false);
                        actions.push(PeerAction::EmitEvent { event: PeerEvent::Error(err) });
                    },
                },
            }
        } else {
            match self.remove_response(cid.id) {
                Some(token) => {
                    // The response to an earlier local call. If nobody is
                    // waiting on the token any more, completing it is the
                    // runtime's silent no-op.
                    actions.push(PeerAction::CompleteResponse { token, response: Ok(frame) });
                },
                None => {
                    // A not-yet-known connection id: an incoming call.
                    match self.lookup_service(sid.id) {
                        Some(sm) => {
                            actions.push(PeerAction::CallService { sm, frame });
                        },
                        None => match self.lookup_relayed(sid.id) {
                            Some(relay) => {
                                actions.push(PeerAction::CallRelay { relay, frame });
                            },
                            None => {
                                let err = ConnectionError::UnknownService(sid.to_bytes());
                                self.send_err(&mut actions, cid, &err, false);
                                actions.push(PeerAction::EmitEvent {
                                    event: PeerEvent::Error(err),
                                });
                            },
                        },
                    }
                },
            }
        }
        actions
    }

    /// Reacts to the stream itself failing to yield a frame — a decode
    /// error on the incoming bytes. Byte alignment with the remote may be
    /// lost, so the remote is told and the connection moves to closing.
    pub fn handle_stream_error(&mut self) -> (r: Vec<PeerAction>)
        requires
            old(self).wf(),
        ensures
            final(self).wf(),
            final(self)@.services == old(self)@.services,
            final(self)@.relayed == old(self)@.relayed,
            final(self)@.relays == old(self)@.relays,
            final(self)@.responses == old(self)@.responses,
            old(self)@.state is Closed ==> final(self)@.state == old(self)@.state
                && r@.len() == 0,
            !(old(self)@.state is Closed) ==> {
                &&& final(self)@.state is Closing
                &&& r@.len() == 3
                &&& r@[0] == (PeerAction::EmitEvent {
                    event: PeerEvent::Error(ConnectionError::Deserialize),
                })
                &&& is_err_frame(r@[1], 0, ConnectionError::Deserialize)
                &&& r@[2] == (PeerAction::RequestClose { remote: false })
            },
    {
        let mut actions: Vec<PeerAction> = Vec::new();
        if let PeerState::Closed = self.state() {
            return actions;
        }
        actions.push(PeerAction::EmitEvent {
            event: PeerEvent::Error(ConnectionError::Deserialize),
        });
        self.send_err(&mut actions, UniqueID::null(), &ConnectionError::Deserialize, true);
        actions
    }

    /// Reacts to the registry's report on a dispatched frame. `cid` is the
    /// call's connection id, or null when the frame was a one-way send. A
    /// deserialize failure at the registry means the frame reached a handler
    /// of the wrong shape — possible stream desync, so the connection moves
    /// to closing. A spawn or downcast failure, or a service unknown after
    /// all, fails only that one request.
    pub fn handle_dispatch_outcome(
        &mut self,
        sid: ServiceID,
        cid: ConnID,
        outcome: DispatchOutcome,
    ) -> (r: Vec<PeerAction>)
        requires
            old(self).wf(),
        ensures
            final(self).wf(),
            final(self)@.services == old(self)@.services,
            final(self)@.relayed == old(self)@.relayed,
            final(self)@.relays == old(self)@.relays,
            final(self)@.responses == old(self)@.responses,
            old(self)@.state is Closed ==> final(self)@.state == old(self)@.state
                && r@.len() == 0,
            !(old(self)@.state is Closed) ==> {
                &&& (outcome == DispatchOutcome::Spawned ==> final(self)@.state == old(self)@.state
                    && r@.len() == 0)
                &&& (outcome == DispatchOutcome::SpawnFailed || outcome == DispatchOutcome::Downcast
                    ==> final(self)@.state == old(self)@.state
                    && r@.len() == 2
                    && r@[0] == (PeerAction::EmitEvent {
                        event: PeerEvent::Error(ConnectionError::InternalServerError),
                    })
                    && is_err_frame(r@[1], cid.id, ConnectionError::InternalServerError))
                &&& (outcome == DispatchOutcome::Deserialize ==> {
                    &&& final(self)@.state is Closing
                    &&& r@.len() == 3
                    &&& r@[0] == (PeerAction::EmitEvent {
                        event: PeerEvent::Error(ConnectionError::Deserialize),
                    })
                    &&& is_err_frame(r@[1], cid.id, ConnectionError::Deserialize)
                    &&& r@[2] == (PeerAction::RequestClose { remote: false })
                })
                &&& (outcome == DispatchOutcome::UnknownService ==> {
                    &&& final(self)@.state == old(self)@.state
                    &&& r@.len() == 2
                    &&& is_send_frame(
                        r@[0],
                        spec_frame_bytes(0, cid.id, spec_unknown_service_bytes(sid.id)),
                    )
                    &&& is_emit_unknown_service(r@[1], sid.id)
                })
            },
    {
        let mut actions: Vec<PeerAction> = Vec::new();
        if let PeerState::Closed = self.state() {
            return actions;
        }
        match outcome {
            DispatchOutcome::Spawned => {},
            DispatchOutcome::SpawnFailed | DispatchOutcome::Downcast => {
                actions.push(PeerAction::EmitEvent {
                    event: PeerEvent::Error(ConnectionError::InternalServerError),
                });
                self.send_err(&mut actions, cid, &ConnectionError::InternalServerError, false);
            },
            DispatchOutcome::Deserialize => {
                actions.push(PeerAction::EmitEvent {
                    event: PeerEvent::Error(ConnectionError::Deserialize),
                });
                self.send_err(&mut actions, cid, &ConnectionError::Deserialize, true);
            },
            DispatchOutcome::UnknownService => {
                let err = ConnectionError::UnknownService(sid.to_bytes());
                self.send_err(&mut actions, cid, &err, false);
                actions.push(PeerAction::EmitEvent { event: PeerEvent::Error(err) });
            },
        }
        actions
    }

    /// Reacts to a failed forward of a one-way send: the relay's address no
    /// longer accepts the frame. The remote is told — with no correlation
    /// id, as a send has none — and the connection stays open.
    pub fn handle_forward_failed(&mut self, sid: ServiceID) -> (r: Vec<PeerAction>)
        requires
            old(self).wf(),
        ensures
            final(self).wf(),
            final(self)@.services == old(self)@.services,
            final(self)@.relayed == old(self)@.relayed,
            final(self)@.relays == old(self)@.relays,
            final(self)@.responses == old(self)@.responses,
            final(self)@.state == old(self)@.state,
            old(self)@.state is Closed ==> r@.len() == 0,
            !(old(self)@.state is Closed) ==> {
                &&& r@.len() == 2
                &&& is_send_frame(
                    r@[0],
                    spec_frame_bytes(0, 0, spec_failed_relay_bytes(sid.id)),
                )
                &&& is_emit_failed_relay(r@[1], sid.id)
            },
    {
        let mut actions: Vec<PeerAction> = Vec::new();
        if let PeerState::Closed = self.state() {
            return actions;
        }
        let err = ConnectionError::FailedToRelay(sid.to_bytes());
        self.send_err(&mut actions, UniqueID::null(), &err, false);
        actions.push(PeerAction::EmitEvent { event: PeerEvent::Error(err) });
        actions
    }

    /// Reacts to the outcome of a call that was forwarded to a relay. The
    /// result — the response frame, the remote's own error, or the loss of
    /// the relay connection — goes back out on this connection under the
    /// original call's connection id, and this connection stays open
    /// whatever happened to the relay's.
    pub fn handle_relay_call_outcome(
        &mut self,
        sid: ServiceID,
        cid: ConnID,
        outcome: RelayCallOutcome,
    ) -> (r: Vec<PeerAction>)
        requires
            old(self).wf(),
        ensures
            final(self).wf(),
            final(self)@.services == old(self)@.services,
            final(self)@.relayed == old(self)@.relayed,
            final(self)@.relays == old(self)@.relays,
            final(self)@.responses == old(self)@.responses,
            final(self)@.state == old(self)@.state,
            old(self)@.state is Closed ==> r@.len() == 0,
            !(old(self)@.state is Closed) ==> {
                &&& r@.len() == 1
                &&& (outcome matches RelayCallOutcome::Response(f)
                    ==> is_send_frame(r@[0], f@))
                &&& (outcome matches RelayCallOutcome::RemoteError(e)
                    ==> is_err_frame(r@[0], cid.id, e))
                &&& (outcome == RelayCallOutcome::ChannelDropped
                    ==> is_err_frame(r@[0], cid.id, ConnectionError::LostRelayBeforeResponse))
                &&& (outcome == RelayCallOutcome::CallFailed
                    ==> is_send_frame(
                        r@[0],
                        spec_frame_bytes(0, cid.id, spec_failed_relay_bytes(sid.id)),
                    ))
            },
    {
        let mut actions: Vec<PeerAction> = Vec::new();
        if let PeerState::Closed = self.state() {
            return actions;
        }
        match outcome {
            RelayCallOutcome::Response(resp) => {
                actions.push(PeerAction::SendFrame { frame: resp });
            },
            RelayCallOutcome::RemoteError(e) => {
                self.send_err(&mut actions, cid, &e, false);
            },
            RelayCallOutcome::ChannelDropped => {
                self.send_err(&mut actions, cid, &ConnectionError::LostRelayBeforeResponse, false);
            },
            RelayCallOutcome::CallFailed => {
                let err = ConnectionError::FailedToRelay(sid.to_bytes());
                self.send_err(&mut actions, cid, &err, false);
            },
        }
        actions
    }

    /// Reacts to an event re-emitted from a relay's own connection. When
    /// the relay closes, its entry and every service route pointing at it
    /// are dropped, so later traffic for those services is answered with
    /// unknown-service; other relay events change nothing here.
    pub fn handle_relay_event(&mut self, relay_id: u64, evt: &PeerEvent) -> (r: Vec<PeerAction>)
        requires
            old(self).wf(),
        ensures
            final(self).wf(),
            final(self)@.services == old(self)@.services,
            final(self)@.responses == old(self)@.responses,
            final(self)@.state == old(self)@.state,
            r@.len() == 0,
            old(self)@.state is Closed ==> final(self)@.relayed == old(self)@.relayed
                && final(self)@.relays == old(self)@.relays,
            !(old(self)@.state is Closed) ==> {
                &&& ((*evt == PeerEvent::Closed || *evt == PeerEvent::ClosedByRemote) ==> {
                    &&& final(self)@.relays == old(self)@.relays.remove(relay_id)
                    &&& final(self)@.relayed == crate::peer::spec_prune_value(
                        old(self)@.relayed,
                        relay_id,
                    )
                })
                &&& (!(*evt == PeerEvent::Closed || *evt == PeerEvent::ClosedByRemote)
                    ==> final(self)@.relayed == old(self)@.relayed
                    && final(self)@.relays == old(self)@.relays)
            },
    {
        if let PeerState::Closed = self.state() {
            return Vec::new();
        }
        match evt {
            PeerEvent::Closed | PeerEvent::ClosedByRemote => {
                self.prune_relay(relay_id);
            },
            _ => {},
        }
        Vec::new()
    }
}

} // verus!
