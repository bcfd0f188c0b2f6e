//! The connection state machine.
//!
//! A `Peer` holds all per-connection routing and correlation state and makes
//! every protocol decision: how an incoming frame is classified, where it is
//! routed, which error goes back on the wire, and when the connection must
//! close. Each handler consumes one event — a decoded frame, a dispatch
//! outcome, a close request — updates the tables, and returns the list of
//! [`PeerAction`]s the surrounding runtime must perform: write a frame to the
//! sink, hand work to the service registry, complete a caller's pending
//! response, emit an observer event. The runtime performs outside work in
//! background tasks and feeds each outcome back in as another event, so all
//! state lives behind this one serialized interface and no table is ever
//! touched concurrently.

use vstd::prelude::*;

pub mod close_connection;
pub mod connection_error;
pub mod incoming;
pub mod peer_err;
pub mod peer_event;
pub mod table;

use crate::bytes_format::BytesFormat;
use crate::bytes_format::spec_frame_bytes;
use crate::peer::connection_error::ConnectionError;
use crate::peer::connection_error::spec_conn_err_bytes;
use crate::peer::peer_err::PeerErr;
use crate::peer::peer_err::PeerErrCtx;
use crate::peer::table::spec_idset;
use crate::peer::table::spec_table_map;
use crate::peer::table::spec_table_wf;
use crate::peer::table::idset_insert;
use crate::peer::table::idset_remove;
use crate::peer::table::lemma_table_map;
use crate::peer::table::table_get;
use crate::peer::table::table_insert;
use crate::peer::table::table_remove;
use crate::wire_format::unique_id::ConnID;
use crate::wire_format::unique_id::ServiceID;
use crate::wire_format::unique_id::UniqueID;

verus! {

/// The lifecycle of a connection: open, tearing down, or terminally closed.
#[derive(Debug, Clone, Copy, PartialEq, Eq, Structural)]
pub enum PeerState {
    /// The sink is held and the reader runs; frames flow both ways.
    Open,
    /// A close was requested or corruption detected; teardown is under way
    /// and will complete when the close request is processed.
    Closing,
    /// Terminal: the sink is gone, every table cleared, and incoming
    /// messages have no further effect.
    Closed,
}

/// One piece of outside work a handler asks the surrounding runtime to do.
/// The runtime performs it — on a background task where it may block — and
/// feeds any outcome back in as a new event.
#[derive(Debug, PartialEq, Eq)]
pub enum PeerAction {
    /// Hand a one-way frame to the service registry under handler key `sm`.
    SendToService { sm: u64, frame: BytesFormat },
    /// Hand a call frame to the service registry under handler key `sm`,
    /// with the ability to deliver a response frame back here.
    CallService { sm: u64, frame: BytesFormat },
    /// Forward a one-way frame, as it is, to the relay's address.
    ForwardToRelay { relay: u64, frame: BytesFormat },
    /// Perform a call on the relay's connection, carrying the frame, and
    /// report how it went through `handle_relay_call_outcome`.
    CallRelay { relay: u64, frame: BytesFormat },
    /// Complete the pending local call registered under `token`.
    CompleteResponse { token: u64, response: Result<BytesFormat, ConnectionError> },
    /// Write a frame out on the sink.
    SendFrame { frame: BytesFormat },
    /// Tell the observers.
    EmitEvent { event: peer_event::PeerEvent },
    /// Close and release the sink, and drop the reader's handle.
    CloseSink,
    /// Put a close request back on the peer's own queue.
    RequestClose { remote: bool },
}

/// The abstract state of a connection: its lifecycle state and the four
/// routing tables, as maps over raw 128-bit ids.
#[verifier::ext_equal]
pub struct PeerView {
    pub state: PeerState,
    /// Service id to registry handler key, for services provided here.
    pub services: Map<u128, u64>,
    /// Service id to relay id, for services forwarded elsewhere.
    pub relayed: Map<u128, u64>,
    /// The relay ids with a live relay connection.
    pub relays: Set<u64>,
    /// Connection id to completion token, one per outstanding local call.
    pub responses: Map<u128, u64>,
}

/// The invariants tying the view together: every relay id a forwarded
/// service names has a live relay entry; the null connection id is never
/// registered for a response; and a closed peer's tables stay cleared.
pub open spec fn spec_peer_inv(v: PeerView) -> bool {
    &&& forall|sid: u128| #[trigger] v.relayed.dom().contains(sid)
        ==> v.relays.contains(v.relayed[sid])
    &&& !v.responses.dom().contains(0)
    &&& (v.state is Closed ==> {
        &&& v.services == Map::<u128, u64>::empty()
        &&& v.relayed == Map::<u128, u64>::empty()
        &&& v.relays == Set::<u64>::empty()
        &&& v.responses == Map::<u128, u64>::empty()
    })
}

/// True of an action that writes the given bytes out on the sink.
pub open spec fn is_send_frame(a: PeerAction, bytes: Seq<u8>) -> bool {
    a matches PeerAction::SendFrame { frame } && frame@ == bytes
}

/// The bytes of a connection-level error frame: null service id, the given
/// connection id, and the error's encoding as payload.
pub open spec fn spec_err_frame_bytes(cid: u128, e: ConnectionError) -> Seq<u8> {
    spec_frame_bytes(0, cid, spec_conn_err_bytes(e))
}

/// True of an action that writes the given error back to the remote.
pub open spec fn is_err_frame(a: PeerAction, cid: u128, e: ConnectionError) -> bool {
    is_send_frame(a, spec_err_frame_bytes(cid, e))
}

/// The encoding of an unknown-service error naming the given service.
pub open spec fn spec_unknown_service_bytes(sid: u128) -> Seq<u8> {
    seq![3u8] + vstd::bytes::spec_u128_to_le_bytes(sid)
}

/// The encoding of a failed-to-relay error naming the given service.
pub open spec fn spec_failed_relay_bytes(sid: u128) -> Seq<u8> {
    seq![4u8] + vstd::bytes::spec_u128_to_le_bytes(sid)
}

/// True of the unknown-service error value naming the given service.
pub open spec fn is_unknown_service_err(e: ConnectionError, sid: u128) -> bool {
    e matches ConnectionError::UnknownService(s)
        && s@ == vstd::bytes::spec_u128_to_le_bytes(sid)
}

/// True of the failed-to-relay error value naming the given service.
pub open spec fn is_failed_relay_err(e: ConnectionError, sid: u128) -> bool {
    e matches ConnectionError::FailedToRelay(s)
        && s@ == vstd::bytes::spec_u128_to_le_bytes(sid)
}

/// The map with every binding to the given value dropped.
pub open spec fn spec_prune_value(m: Map<u128, u64>, v: u64) -> Map<u128, u64> {
    Map::new(|k: u128| m.dom().contains(k) && m[k] != v, |k: u128| m[k])
}

/// The relay half of the invariant carries over unchanged tables.
proof fn lemma_relay_inv_carries(a: PeerView, b: PeerView)
    requires
        forall|sid: u128| #[trigger] a.relayed.dom().contains(sid)
            ==> a.relays.contains(a.relayed[sid]),
        b.relayed == a.relayed,
        b.relays == a.relays,
    ensures
        forall|sid: u128| #[trigger] b.relayed.dom().contains(sid)
            ==> b.relays.contains(b.relayed[sid]),
{
    assert forall|sid: u128| #[trigger] b.relayed.dom().contains(sid)
        implies b.relays.contains(b.relayed[sid]) by {
        assert(a.relayed.dom().contains(sid));
    }
}

/// Represents one connection to another process, over which actor messages
/// are sent, calls are correlated with their responses, and traffic for
/// services provided elsewhere is relayed.
pub struct Peer {
    state: PeerState,
    services: Vec<(u128, u64)>,
    relayed: Vec<(u128, u64)>,
    relays: Vec<u64>,
    responses: Vec<(u128, u64)>,
}

impl View for Peer {
    type V = PeerView;

    closed spec fn view(&self) -> PeerView {
        PeerView {
            state: self.state,
            services: spec_table_map(self.services@),
            relayed: spec_table_map(self.relayed@),
            relays: spec_idset(self.relays@),
            responses: spec_table_map(self.responses@),
        }
    }
}

/// An outgoing call: the frame to send, whose connection id the caller will
/// be answered under.
pub struct Call {
    mesg: BytesFormat,
}

impl View for Call {
    type V = Seq<u8>;

    closed spec fn view(&self) -> Seq<u8> {
        self.mesg@
    }
}

impl Call {
    /// A call carries a whole frame, header included.
    pub open spec fn wf(&self) -> bool {
        self@.len() >= 32
    }

    /// Wraps a frame as an outgoing call.
    pub fn new(mesg: BytesFormat) -> (r: Self)
        requires
            mesg.wf(),
        ensures
            r@ == mesg@,
            r.wf(),
    {
        Call { mesg }
    }

    /// The connection id the call's responses will be correlated under.
    pub fn conn_id(&self) -> (r: ConnID)
        requires
            self.wf(),
        ensures
            r.id == crate::bytes_format::spec_cid_of(self@),
    {
        self.mesg.conn_id()
    }
}

impl Peer {
    /// Well-formed: each table binds a key once, and the view invariants
    /// hold.
    pub closed spec fn wf(&self) -> bool {
        &&& spec_table_wf(self.services@)
        &&& spec_table_wf(self.relayed@)
        &&& spec_table_wf(self.responses@)
        &&& spec_peer_inv(self@)
    }

    /// Well-formedness gives the view invariants.
    pub proof fn lemma_wf_inv(&self)
        requires
            self.wf(),
        ensures
            spec_peer_inv(self@),
    {
    }

    /// A fresh peer for a newly framed connection: open, with every table
    /// empty. The caller wires the connection's reader to feed
    /// `handle_incoming` and performs the actions the handlers return.
    pub fn new() -> (r: Self)
        ensures
            r.wf(),
            r@.state is Open,
            r@.services == Map::<u128, u64>::empty(),
            r@.relayed == Map::<u128, u64>::empty(),
            r@.relays == Set::<u64>::empty(),
            r@.responses == Map::<u128, u64>::empty(),
    {
        Peer {
            state: PeerState::Open,
            services: Vec::new(),
            relayed: Vec::new(),
            relays: Vec::new(),
            responses: Vec::new(),
        }
    }

    /// The connection's lifecycle state.
    pub fn state(&self) -> (r: PeerState)
        ensures
            r == self@.state,
    {
        self.state
    }

    /// Whether a call is outstanding under this connection id.
    pub fn has_response(&self, cid: ConnID) -> (r: bool)
        requires
            self.wf(),
        ensures
            r == self@.responses.dom().contains(cid.id),
    {
        table_get(&self.responses, cid.id).is_some()
    }

    /// Serializes a connection error for the wire: a frame with the null
    /// service id — the marker for a connection-level message — the given
    /// correlation id, and the encoded error as payload.
    pub fn prep_error(cid: ConnID, err: &ConnectionError) -> (r: BytesFormat)
        ensures
            r@ == spec_err_frame_bytes(cid.id, *err),
            r.wf(),
    {
        let payload = err.encode();
        BytesFormat::create(UniqueID::null(), cid, payload)
    }

    /// Decides how to put a message on the wire: while the connection lives
    /// the frame goes to the sink; after close the message is refused, as
    /// the sink is gone.
    pub fn send_msg(&self, msg: BytesFormat) -> (r: Result<PeerAction, PeerErr>)
        ensures
            self@.state is Closed ==> (r matches Err(e)
                && e matches PeerErr::ConnectionClosed { .. }),
            !(self@.state is Closed) ==> (r matches Ok(a) && is_send_frame(a, msg@)),
    {
        match self.state {
            PeerState::Closed => Err(PeerErr::ConnectionClosed {
                ctx: PeerErrCtx::default().context(Some(String::from_str(
                    "send MultiService over network",
                ))),
            }),
            _ => Ok(PeerAction::SendFrame { frame: msg }),
        }
    }

    /// Starts an outgoing call: registers the completion token under the
    /// call's connection id — before anything is written, so a fast reply
    /// can never race its own registration — and asks for the frame to be
    /// written. A call on a closed connection fails locally before any
    /// write is attempted.
    pub fn handle_call(&mut self, call: Call, token: u64) -> (r: Result<
        Vec<PeerAction>,
        PeerErr,
    >)
        requires
            old(self).wf(),
            call.wf(),
            crate::bytes_format::spec_cid_of(call@) != 0,
            !old(self)@.responses.dom().contains(crate::bytes_format::spec_cid_of(call@)),
        ensures
            final(self).wf(),
            final(self)@.state == old(self)@.state,
            final(self)@.services == old(self)@.services,
            final(self)@.relayed == old(self)@.relayed,
            final(self)@.relays == old(self)@.relays,
            old(self)@.state is Closed ==> (r matches Err(e)
                && e matches PeerErr::ConnectionClosed { .. }
                && final(self)@.responses == old(self)@.responses),
            !(old(self)@.state is Closed) ==> (r matches Ok(actions)
                && final(self)@.responses == old(self)@.responses.insert(
                    crate::bytes_format::spec_cid_of(call@),
                    token,
                )
                && actions@.len() == 1
                && is_send_frame(actions@[0], call@)),
    {
        match self.state {
            PeerState::Closed => Err(PeerErr::ConnectionClosed {
                ctx: PeerErrCtx::default().context(Some(String::from_str("outgoing call"))),
            }),
            _ => {
                let cid = call.mesg.conn_id();
                table_insert(&mut self.responses, cid.id, token);
                proof {
                    lemma_relay_inv_carries(old(self)@, self@);
                }
                let mut actions: Vec<PeerAction> = Vec::new();
                actions.push(PeerAction::SendFrame { frame: call.mesg });
                Ok(actions)
            },
        }
    }

    /// Registers this peer as provider of the given services: each id is
    /// bound to the registry's handler key, replacing any earlier binding.
    /// On a closed peer there is nothing left to register into.
    pub fn register_services(&mut self, services: &Vec<ServiceID>, sm: u64)
        requires
            old(self).wf(),
        ensures
            final(self).wf(),
            final(self)@.state == old(self)@.state,
            final(self)@.relayed == old(self)@.relayed,
            final(self)@.relays == old(self)@.relays,
            final(self)@.responses == old(self)@.responses,
            old(self)@.state is Closed ==> final(self)@.services == old(self)@.services,
            !(old(self)@.state is Closed) ==> final(self)@.services == Map::new(
                |k: u128| old(self)@.services.dom().contains(k) || contains_id(services@, k),
                |k: u128| if contains_id(services@, k) { sm } else { old(self)@.services[k] },
            ),
    {
        if let PeerState::Closed = self.state {
            return;
        }
        let ghost m0 = self@.services;
        let mut i: usize = 0;
        while i < services.len()
            invariant
                i <= services@.len(),
                spec_table_wf(self.services@),
                spec_table_wf(self.relayed@),
                spec_table_wf(self.responses@),
                spec_peer_inv(self@),
                !(self@.state is Closed),
                self@.state == old(self)@.state,
                self@.relayed == old(self)@.relayed,
                self@.relays == old(self)@.relays,
                self@.responses == old(self)@.responses,
                m0 == old(self)@.services,
                self@.services == Map::new(
                    |k: u128| m0.dom().contains(k) || contains_id(services@.take(i as int), k),
                    |k: u128| if contains_id(services@.take(i as int), k) {
                        sm
                    } else {
                        m0[k]
                    },
                ),
            decreases services@.len() - i,
        {
            let sid = services[i];
            table_insert(&mut self.services, sid.id, sm);
            proof {
                lemma_take_one_more_id(services@, i as int);
                assert(self@.services =~= Map::new(
                    |k: u128| m0.dom().contains(k)
                        || contains_id(services@.take(i as int + 1), k),
                    |k: u128| if contains_id(services@.take(i as int + 1), k) {
                        sm
                    } else {
                        m0[k]
                    },
                ));
            }
            i = i + 1;
        }
        proof {
            assert(services@.take(services@.len() as int) =~= services@);
            assert(self@.services =~= Map::new(
                |k: u128| m0.dom().contains(k) || contains_id(services@, k),
                |k: u128| if contains_id(services@, k) {
                    sm
                } else {
                    m0[k]
                },
            ));
        }
    }

    /// Makes the given services available through a relay: records the
    /// relay as live and binds each id to it, replacing earlier bindings.
    /// It is the caller's task to watch the relay's own events and feed
    /// them back through `handle_relay_event`. Once the connection has
    /// closed, registering fails.
    pub fn register_relayed_services(&mut self, services: &Vec<ServiceID>, relay_id: u64) -> (r:
        Result<(), PeerErr>)
        requires
            old(self).wf(),
        ensures
            final(self).wf(),
            final(self)@.state == old(self)@.state,
            final(self)@.services == old(self)@.services,
            final(self)@.responses == old(self)@.responses,
            old(self)@.state is Closed ==> (r matches Err(e)
                && e matches PeerErr::ConnectionClosed { .. }
                && final(self)@.relayed == old(self)@.relayed
                && final(self)@.relays == old(self)@.relays),
            !(old(self)@.state is Closed) ==> (r is Ok
                && final(self)@.relays == old(self)@.relays.insert(relay_id)
                && final(self)@.relayed == Map::new(
                    |k: u128| old(self)@.relayed.dom().contains(k) || contains_id(services@, k),
                    |k: u128| if contains_id(services@, k) {
                        relay_id
                    } else {
                        old(self)@.relayed[k]
                    },
                )),
    {
        if let PeerState::Closed = self.state {
            return Err(PeerErr::ConnectionClosed {
                ctx: PeerErrCtx::default().context(Some(String::from_str(
                    "register_relayed_services",
                ))),
            });
        }
        idset_insert(&mut self.relays, relay_id);
        let ghost m0 = self@.relayed;
        let mut i: usize = 0;
        while i < services.len()
            invariant
                i <= services@.len(),
                spec_table_wf(self.services@),
                spec_table_wf(self.relayed@),
                spec_table_wf(self.responses@),
                !(self@.state is Closed),
                self@.state == old(self)@.state,
                self@.services == old(self)@.services,
                self@.relays == old(self)@.relays.insert(relay_id),
                self@.responses == old(self)@.responses,
                !self@.responses.dom().contains(0),
                m0 == old(self)@.relayed,
                forall|sid: u128| #[trigger] m0.dom().contains(sid)
                    ==> old(self)@.relays.contains(m0[sid]),
                self@.relayed == Map::new(
                    |k: u128| m0.dom().contains(k) || contains_id(services@.take(i as int), k),
                    |k: u128| if contains_id(services@.take(i as int), k) {
                        relay_id
                    } else {
                        m0[k]
                    },
                ),
            decreases services@.len() - i,
        {
            let sid = services[i];
            table_insert(&mut self.relayed, sid.id, relay_id);
            proof {
                lemma_take_one_more_id(services@, i as int);
                assert(self@.relayed =~= Map::new(
                    |k: u128| m0.dom().contains(k)
                        || contains_id(services@.take(i as int + 1), k),
                    |k: u128| if contains_id(services@.take(i as int + 1), k) {
                        relay_id
                    } else {
                        m0[k]
                    },
                ));
            }
            i = i + 1;
        }
        proof {
            assert(services@.take(services@.len() as int) =~= services@);
            assert(self@.relayed =~= Map::new(
                |k: u128| m0.dom().contains(k) || contains_id(services@, k),
                |k: u128| if contains_id(services@, k) {
                    relay_id
                } else {
                    m0[k]
                },
            ));
        }
        Ok(())
    }

    /// Looks a service up among those provided here.
    pub(crate) fn lookup_service(&self, sid: u128) -> (r: Option<u64>)
        requires
            self.wf(),
        ensures
            r matches Some(v) ==> self@.services.dom().contains(sid)
                && self@.services[sid] == v,
            r is None ==> !self@.services.dom().contains(sid),
    {
        table_get(&self.services, sid)
    }

    /// Looks a service up among those relayed elsewhere.
    pub(crate) fn lookup_relayed(&self, sid: u128) -> (r: Option<u64>)
        requires
            self.wf(),
        ensures
            r matches Some(v) ==> self@.relayed.dom().contains(sid)
                && self@.relayed[sid] == v && self@.relays.contains(v),
            r is None ==> !self@.relayed.dom().contains(sid),
    {
        let r = table_get(&self.relayed, sid);
        proof {
            if r is Some {
                assert(self@.relays.contains(self@.relayed[sid]));
            }
        }
        r
    }

    /// Takes the completion token registered under a connection id, if any.
    pub(crate) fn remove_response(&mut self, cid: u128) -> (r: Option<u64>)
        requires
            old(self).wf(),
        ensures
            final(self).wf(),
            final(self)@.state == old(self)@.state,
            final(self)@.services == old(self)@.services,
            final(self)@.relayed == old(self)@.relayed,
            final(self)@.relays == old(self)@.relays,
            final(self)@.responses == old(self)@.responses.remove(cid),
            r matches Some(v) ==> old(self)@.responses.dom().contains(cid)
                && old(self)@.responses[cid] == v,
            r is None ==> !old(self)@.responses.dom().contains(cid)
                && final(self)@.responses == old(self)@.responses,
    {
        let r = table_remove(&mut self.responses, cid);
        proof {
            lemma_relay_inv_carries(old(self)@, self@);
            if old(self)@.state is Closed {
                assert(self@.responses =~= old(self)@.responses);
            }
        }
        r
    }

    /// Sends a connection error to the remote and, where the stream may be
    /// corrupt, asks for the connection to be closed: the error frame goes
    /// out, a close request is put back on the queue, and the peer stands in
    /// `Closing` until that request is processed.
    pub(crate) fn send_err(
        &mut self,
        actions: &mut Vec<PeerAction>,
        cid: ConnID,
        err: &ConnectionError,
        close: bool,
    )
        requires
            old(self).wf(),
            !(old(self)@.state is Closed),
        ensures
            final(self).wf(),
            final(self)@.services == old(self)@.services,
            final(self)@.relayed == old(self)@.relayed,
            final(self)@.relays == old(self)@.relays,
            final(self)@.responses == old(self)@.responses,
            final(self)@.state == if close {
                PeerState::Closing
            } else {
                old(self)@.state
            },
            final(actions)@.subrange(0, old(actions)@.len() as int) == old(actions)@,
            forall|i: int| 0 <= i < old(actions)@.len()
                ==> final(actions)@[i] == old(actions)@[i],
            close ==> final(actions)@.len() == old(actions)@.len() + 2
                && is_err_frame(final(actions)@[old(actions)@.len() as int], cid.id, *err)
                && final(actions)@[old(actions)@.len() as int + 1]
                    == (PeerAction::RequestClose { remote: false }),
            !close ==> final(actions)@.len() == old(actions)@.len() + 1
                && is_err_frame(final(actions)@[old(actions)@.len() as int], cid.id, *err),
    {
        let frame = Peer::prep_error(cid, err);
        actions.push(PeerAction::SendFrame { frame });
        if close {
            actions.push(PeerAction::RequestClose { remote: false });
            self.state = PeerState::Closing;
        }
        proof {
            lemma_relay_inv_carries(old(self)@, self@);
            assert(actions@.subrange(0, old(actions)@.len() as int) =~= old(actions)@);
        }
    }

    /// Tears the connection down: the terminal state, with every table
    /// cleared so that no routing entry or pending call outlives the
    /// connection and no reference cycle keeps it alive.
    pub(crate) fn teardown(&mut self)
        requires
            old(self).wf(),
        ensures
            final(self).wf(),
            final(self)@.state is Closed,
            final(self)@.services == Map::<u128, u64>::empty(),
            final(self)@.relayed == Map::<u128, u64>::empty(),
            final(self)@.relays == Set::<u64>::empty(),
            final(self)@.responses == Map::<u128, u64>::empty(),
    {
        self.state = PeerState::Closed;
        self.services.clear();
        self.relayed.clear();
        self.relays.clear();
        self.responses.clear();
    }

    /// Forgets a relay: its entry goes, and with it every service route
    /// that pointed at it, so later traffic for those services is answered
    /// with unknown-service instead of being forwarded into the void.
    pub(crate) fn prune_relay(&mut self, relay_id: u64)
        requires
            old(self).wf(),
        ensures
            final(self).wf(),
            final(self)@.state == old(self)@.state,
            final(self)@.services == old(self)@.services,
            final(self)@.responses == old(self)@.responses,
            final(self)@.relays == old(self)@.relays.remove(relay_id),
            final(self)@.relayed == spec_prune_value(old(self)@.relayed, relay_id),
    {
        idset_remove(&mut self.relays, relay_id);
        let ghost m0 = spec_table_map(self.relayed@);
        let mut kept: Vec<(u128, u64)> = Vec::new();
        let mut i: usize = 0;
        while i < self.relayed.len()
            invariant
                i <= self.relayed@.len(),
                spec_table_wf(self.relayed@),
                spec_table_wf(kept@),
                m0 == spec_table_map(self.relayed@),
                spec_table_map(kept@) == spec_prune_value(
                    spec_table_map(self.relayed@.take(i as int)),
                    relay_id,
                ),
            decreases self.relayed@.len() - i,
        {
            let e = self.relayed[i];
            proof {
                assert(self.relayed@.take(i as int + 1).drop_last()
                    =~= self.relayed@.take(i as int));
                lemma_table_map(self.relayed@.take(i as int));
                assert(spec_table_wf(self.relayed@.take(i as int)));
                if spec_table_map(self.relayed@.take(i as int)).dom().contains(e.0) {
                    let j = choose|j: int| 0 <= j < i
                        && (#[trigger] self.relayed@.take(i as int)[j]).0 == e.0;
                    assert((self.relayed@[j]).0 == (self.relayed@[i as int]).0);
                    assert(false);
                }
            }
            if e.1 != relay_id {
                table_insert(&mut kept, e.0, e.1);
            }
            proof {
                assert(spec_table_map(kept@) =~= spec_prune_value(
                    spec_table_map(self.relayed@.take(i as int + 1)),
                    relay_id,
                ));
            }
            i = i + 1;
        }
        proof {
            assert(self.relayed@.take(self.relayed@.len() as int) =~= self.relayed@);
        }
        self.relayed = kept;
        proof {
            assert forall|sid: u128| #[trigger] self@.relayed.dom().contains(sid)
                implies self@.relays.contains(self@.relayed[sid]) by {
                assert(old(self)@.relayed.dom().contains(sid));
            }
            if old(self)@.state is Closed {
                assert(self@.relayed =~= old(self)@.relayed);
                assert(self@.relays =~= old(self)@.relays);
            }
        }
    }
}

/// Call correlation: two calls outstanding under distinct connection ids
/// are completed independently. Completing either one — in whichever order
/// the remote replies — yields that call's own token and leaves the other
/// call registered with its token untouched, as `handle_incoming` states
/// over this response map.
pub proof fn lemma_call_correlation(responses: Map<u128, u64>, cid1: u128, cid2: u128)
    requires
        responses.dom().contains(cid1),
        responses.dom().contains(cid2),
        cid1 != cid2,
    ensures
        responses.remove(cid2).dom().contains(cid1),
        responses.remove(cid2)[cid1] == responses[cid1],
        responses.remove(cid1).dom().contains(cid2),
        responses.remove(cid1)[cid2] == responses[cid2],
{
}

/// Whether a list of service ids contains the given raw id.
pub open spec fn contains_id(s: Seq<ServiceID>, k: u128) -> bool {
    exists|i: int| 0 <= i < s.len() && (#[trigger] s[i]).id == k
}

/// Growing the inspected prefix by one either adds that entry's id or
/// changes nothing.
proof fn lemma_take_one_more_id(s: Seq<ServiceID>, i: int)
    requires
        0 <= i < s.len(),
    ensures
        forall|k: u128| #[trigger] contains_id(s.take(i + 1), k)
            <==> (contains_id(s.take(i), k) || (s[i]).id == k),
{
    assert forall|k: u128| #[trigger] contains_id(s.take(i + 1), k)
        implies (contains_id(s.take(i), k) || (s[i]).id == k) by {
        let j = choose|j: int| 0 <= j < i + 1 && (#[trigger] s.take(i + 1)[j]).id == k;
        if j < i {
            assert((s.take(i)[j]).id == k);
        }
    }
    assert forall|k: u128| (contains_id(s.take(i), k) || (s[i]).id == k)
        implies #[trigger] contains_id(s.take(i + 1), k) by {
        if contains_id(s.take(i), k) {
            let j = choose|j: int| 0 <= j < i && (#[trigger] s.take(i)[j]).id == k;
            assert((s.take(i + 1)[j]).id == k);
        } else {
            assert((s.take(i + 1)[i]).id == k);
        }
    }
}

} // verus!
