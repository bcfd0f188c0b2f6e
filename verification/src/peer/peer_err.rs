//! The local-facing error type surfaced to API callers, with its context.
//!
//! This taxonomy is parallel to, but distinct from, the wire-facing
//! [`ConnectionError`]: local errors may carry process-specific detail such
//! as a peer id or name, and that detail is stripped before anything derived
//! from them is rendered for a remote.

use vstd::prelude::*;

use crate::peer::connection_error::ConnectionError;
use crate::wire_format::WireErr;
use crate::wire_format::unique_id::ConnID;
use crate::wire_format::unique_id::ServiceID;
use crate::wire_format::unique_id::spec_id_hex;

verus! {

/// One decimal digit as a character.
pub open spec fn spec_dec_digit(n: int) -> char {
    if n == 0 { '0' } else if n == 1 { '1' } else if n == 2 { '2' }
    else if n == 3 { '3' } else if n == 4 { '4' } else if n == 5 { '5' }
    else if n == 6 { '6' } else if n == 7 { '7' } else if n == 8 { '8' }
    else { '9' }
}

/// The decimal rendering of a number, most significant digit first.
pub open spec fn spec_dec_digits(v: nat) -> Seq<char>
    decreases v,
{
    if v < 10 {
        seq![spec_dec_digit(v as int)]
    } else {
        spec_dec_digits(v / 10) + seq![spec_dec_digit((v % 10) as int)]
    }
}

/// One decimal digit, as a string slice.
fn dec_digit_str(d: u64) -> (r: &'static str)
    requires
        d < 10,
    ensures
        r@ == seq![spec_dec_digit(d as int)],
{
    proof {
        reveal_strlit("0");
        reveal_strlit("1");
        reveal_strlit("2");
        reveal_strlit("3");
        reveal_strlit("4");
        reveal_strlit("5");
        reveal_strlit("6");
        reveal_strlit("7");
        reveal_strlit("8");
        reveal_strlit("9");
    }
    match d {
        0 => "0",
        1 => "1",
        2 => "2",
        3 => "3",
        4 => "4",
        5 => "5",
        6 => "6",
        7 => "7",
        8 => "8",
        _ => "9",
    }
}

/// Renders a number in decimal.
fn u64_dec_string(v: u64) -> (r: String)
    ensures
        r@ == spec_dec_digits(v as nat),
    decreases v,
{
    if v < 10 {
        String::from_str(dec_digit_str(v))
    } else {
        let mut s = u64_dec_string(v / 10);
        s.append(dec_digit_str(v % 10));
        s
    }
}

/// The circumstances of an error: free-form context, the local identity of
/// the peer involved, and the service and connection ids at hand.
#[derive(Debug, Clone, PartialEq, Eq)]
pub struct PeerErrCtx {
    pub context: Option<String>,
    pub peer_id: Option<usize>,
    pub peer_name: Option<String>,
    pub sid: Option<ServiceID>,
    pub cid: Option<ConnID>,
}

impl Default for PeerErrCtx {
    /// An empty context: nothing known yet.
    fn default() -> (r: Self)
        ensures
            r.context is None,
            r.peer_id is None,
            r.peer_name is None,
            r.sid is None,
            r.cid is None,
    {
        PeerErrCtx { context: None, peer_id: None, peer_name: None, sid: None, cid: None }
    }
}

impl PeerErrCtx {
    /// Sets the free-form context line.
    pub fn context(self, context: Option<String>) -> (r: Self)
        ensures
            r.context == context,
            r.peer_id == self.peer_id,
            r.peer_name == self.peer_name,
            r.sid == self.sid,
            r.cid == self.cid,
    {
        PeerErrCtx { context, ..self }
    }

    /// Sets the local id of the peer involved.
    pub fn peer_id(self, peer_id: Option<usize>) -> (r: Self)
        ensures
            r.context == self.context,
            r.peer_id == peer_id,
            r.peer_name == self.peer_name,
            r.sid == self.sid,
            r.cid == self.cid,
    {
        PeerErrCtx { peer_id, ..self }
    }

    /// Sets the local name of the peer involved.
    pub fn peer_name(self, peer_name: Option<String>) -> (r: Self)
        ensures
            r.context == self.context,
            r.peer_id == self.peer_id,
            r.peer_name == peer_name,
            r.sid == self.sid,
            r.cid == self.cid,
    {
        PeerErrCtx { peer_name, ..self }
    }

    /// Sets the service id involved.
    pub fn sid(self, sid: Option<ServiceID>) -> (r: Self)
        ensures
            r.context == self.context,
            r.peer_id == self.peer_id,
            r.peer_name == self.peer_name,
            r.sid == sid,
            r.cid == self.cid,
    {
        PeerErrCtx { sid, ..self }
    }

    /// Sets the connection id involved.
    pub fn cid(self, cid: Option<ConnID>) -> (r: Self)
        ensures
            r.context == self.context,
            r.peer_id == self.peer_id,
            r.peer_name == self.peer_name,
            r.sid == self.sid,
            r.cid == cid,
    {
        PeerErrCtx { cid, ..self }
    }
}

/// The rendering of a context: one labelled, dot-terminated part per field
/// that is set, in a fixed order. Identifiers render as hex, the peer id in
/// decimal.
pub open spec fn spec_ctx_display(c: PeerErrCtx) -> Seq<char> {
    (match c.context {
        Option::Some(x) => " Context: "@ + x@ + "."@,
        Option::None => Seq::empty(),
    }) + (match c.peer_id {
        Option::Some(x) => " peer_id: "@ + spec_dec_digits(x as nat) + "."@,
        Option::None => Seq::empty(),
    }) + (match c.peer_name {
        Option::Some(x) => " peer_name: "@ + x@ + "."@,
        Option::None => Seq::empty(),
    }) + (match c.sid {
        Option::Some(x) => " sid: "@ + spec_id_hex(x.id) + "."@,
        Option::None => Seq::empty(),
    }) + (match c.cid {
        Option::Some(x) => " cid: "@ + spec_id_hex(x.id) + "."@,
        Option::None => Seq::empty(),
    })
}

impl PeerErrCtx {
    /// Renders the context for humans, one part per field that is set.
    pub fn display_string(&self) -> (r: String)
        ensures
            r@ == spec_ctx_display(*self),
    {
        let ghost p1 = if self.context is Some {
            " Context: "@ + self.context->Some_0@ + "."@
        } else {
            Seq::empty()
        };
        let ghost p2 = if self.peer_id is Some {
            " peer_id: "@ + spec_dec_digits(self.peer_id->Some_0 as nat) + "."@
        } else {
            Seq::empty()
        };
        let ghost p3 = if self.peer_name is Some {
            " peer_name: "@ + self.peer_name->Some_0@ + "."@
        } else {
            Seq::empty()
        };
        let ghost p4 = if self.sid is Some {
            " sid: "@ + spec_id_hex((self.sid->Some_0).id) + "."@
        } else {
            Seq::empty()
        };
        let ghost p5 = if self.cid is Some {
            " cid: "@ + spec_id_hex((self.cid->Some_0).id) + "."@
        } else {
            Seq::empty()
        };
        let mut s = String::new();
        if let Some(x) = &self.context {
            s.append(" Context: ");
            s.append(x.as_str());
            s.append(".");
        }
        proof {
            assert(s@ =~= p1);
        }
        if let Some(x) = &self.peer_id {
            s.append(" peer_id: ");
            let d = u64_dec_string(*x as u64);
            s.append(d.as_str());
            s.append(".");
        }
        proof {
            assert(s@ =~= p1 + p2);
        }
        if let Some(x) = &self.peer_name {
            s.append(" peer_name: ");
            s.append(x.as_str());
            s.append(".");
        }
        proof {
            assert(s@ =~= p1 + p2 + p3);
        }
        if let Some(x) = &self.sid {
            s.append(" sid: ");
            let h = x.to_hex();
            s.append(h.as_str());
            s.append(".");
        }
        proof {
            assert(s@ =~= p1 + p2 + p3 + p4);
        }
        if let Some(x) = &self.cid {
            s.append(" cid: ");
            let h = x.to_hex();
            s.append(h.as_str());
            s.append(".");
        }
        proof {
            assert(s@ =~= p1 + p2 + p3 + p4 + p5);
            assert(s@ =~= spec_ctx_display(*self));
        }
        s
    }
}

/// What a remote is told about an error, rendered for transmission: the
/// matter of the error and its context, but never the local peer id or
/// peer name — no local-process identity leaves the process.
pub open spec fn spec_remote_err_string(e: PeerErr) -> Seq<char> {
    match e {
        PeerErr::WireFormat { source, ctx } => {
            let stripped = PeerErrCtx { peer_id: Option::None, peer_name: Option::None, ..ctx };
            match source {
                WireErr::MessageSizeExceeded { context, size, max_size } =>
                    "Maximum message size exceeded: context: "@ + context@ + ", actual: "@
                        + spec_dec_digits(size as nat) + " bytes, allowed: "@
                        + spec_dec_digits(max_size as nat) + " bytes."@,
                WireErr::Deserialize { .. } =>
                    "Could not deserialize your message."@ + spec_ctx_display(stripped),
            }
        },
        PeerErr::Deserialize { ctx } => {
            let stripped = PeerErrCtx { peer_id: Option::None, peer_name: Option::None, ..ctx };
            "Could not deserialize your message."@ + spec_ctx_display(stripped)
        },
        _ => Seq::empty(),
    }
}

/// Everything that can go wrong on a connection, as seen by local callers.
#[derive(Debug, Clone, PartialEq, Eq)]
#[non_exhaustive]
pub enum PeerErr {
    /// The peer cannot be used: the connection has already closed.
    ConnectionClosed { ctx: PeerErrCtx },
    /// An actor message could not be deserialized. The data is dropped and
    /// the remote notified; the connection itself closes, since the stream
    /// may have lost alignment.
    Deserialize { ctx: PeerErrCtx },
    /// An internal downcast failed; the one request fails, nothing else.
    Downcast { ctx: PeerErrCtx },
    /// The handling actor is no longer running.
    HandlerDead { ctx: PeerErrCtx },
    /// No handler has been set for this service.
    NoHandler { ctx: PeerErrCtx },
    /// The peer's own mailbox is gone.
    PeerGone { ctx: PeerErrCtx },
    /// The connection to a relay has closed, so the request could not be
    /// forwarded.
    RelayGone { ctx: PeerErrCtx, relay_id: usize, relay_name: Option<String> },
    /// The remote reported an error while processing a message we sent.
    Remote { ctx: PeerErrCtx, err: ConnectionError },
    /// A message could not be serialized.
    Serialize { ctx: PeerErrCtx },
    /// A background task could not be spawned.
    Spawn { ctx: PeerErrCtx },
    /// An operation timed out.
    Timeout { ctx: PeerErrCtx },
    /// A message was addressed to a service nobody here provides.
    UnknownService { ctx: PeerErrCtx },
    /// The byte stream itself failed to encode or decode.
    WireFormat { ctx: PeerErrCtx, source: WireErr },
}

impl PeerErr {
    /// The context carried by any variant.
    pub open spec fn spec_ctx(&self) -> PeerErrCtx {
        match *self {
            PeerErr::ConnectionClosed { ctx } => ctx,
            PeerErr::Deserialize { ctx } => ctx,
            PeerErr::Downcast { ctx } => ctx,
            PeerErr::HandlerDead { ctx } => ctx,
            PeerErr::NoHandler { ctx } => ctx,
            PeerErr::PeerGone { ctx } => ctx,
            PeerErr::RelayGone { ctx, .. } => ctx,
            PeerErr::Remote { ctx, .. } => ctx,
            PeerErr::Serialize { ctx } => ctx,
            PeerErr::Spawn { ctx } => ctx,
            PeerErr::Timeout { ctx } => ctx,
            PeerErr::UnknownService { ctx } => ctx,
            PeerErr::WireFormat { ctx, .. } => ctx,
        }
    }

    /// Produces the display string suitable for sending this error to a
    /// connected client: local-process identity — peer id and peer name —
    /// is omitted. Only the two conditions a remote is ever told about in
    /// this way, a wire-format failure and a deserialize failure, can be
    /// rendered.
    pub fn remote_err(self) -> (r: String)
        requires
            self matches PeerErr::WireFormat { .. } || self matches PeerErr::Deserialize { .. },
        ensures
            r@ == spec_remote_err_string(self),
    {
        match self {
            PeerErr::WireFormat { source, ctx } => {
                let ghost ctx0 = ctx;
                let stripped = ctx.peer_id(None).peer_name(None);
                match source {
                    WireErr::MessageSizeExceeded { context, size, max_size } => {
                        let mut s = String::from_str(
                            "Maximum message size exceeded: context: ",
                        );
                        s.append(context.as_str());
                        s.append(", actual: ");
                        let d = u64_dec_string(size);
                        s.append(d.as_str());
                        s.append(" bytes, allowed: ");
                        let m = u64_dec_string(max_size);
                        s.append(m.as_str());
                        s.append(" bytes.");
                        proof {
                            assert(s@ =~= spec_remote_err_string(
                                PeerErr::WireFormat {
                                    source: WireErr::MessageSizeExceeded {
                                        context, size, max_size,
                                    },
                                    ctx: ctx0,
                                },
                            ));
                        }
                        s
                    },
                    WireErr::Deserialize { context } => {
                        let mut s = String::from_str("Could not deserialize your message.");
                        let tail = stripped.display_string();
                        s.append(tail.as_str());
                        proof {
                            assert(stripped == (PeerErrCtx {
                                peer_id: Option::None,
                                peer_name: Option::None,
                                ..ctx0
                            }));
                            assert(s@ =~= spec_remote_err_string(
                                PeerErr::WireFormat {
                                    source: WireErr::Deserialize { context },
                                    ctx: ctx0,
                                },
                            ));
                        }
                        s
                    },
                }
            },
            PeerErr::Deserialize { ctx } => {
                let ghost ctx0 = ctx;
                let stripped = ctx.peer_id(None).peer_name(None);
                let mut s = String::from_str("Could not deserialize your message.");
                let tail = stripped.display_string();
                s.append(tail.as_str());
                proof {
                    assert(stripped == (PeerErrCtx {
                        peer_id: Option::None,
                        peer_name: Option::None,
                        ..ctx0
                    }));
                    assert(s@ =~= spec_remote_err_string(PeerErr::Deserialize { ctx: ctx0 }));
                }
                s
            },
            _ => {
                proof {
                    assert(false);
                }
                String::new()
            },
        }
    }

    /// Borrows the context carried by any variant.
    pub fn ctx(&self) -> (r: &PeerErrCtx)
        ensures
            *r == self.spec_ctx(),
    {
        match self {
            PeerErr::ConnectionClosed { ctx } => ctx,
            PeerErr::Deserialize { ctx } => ctx,
            PeerErr::Downcast { ctx } => ctx,
            PeerErr::HandlerDead { ctx } => ctx,
            PeerErr::NoHandler { ctx } => ctx,
            PeerErr::PeerGone { ctx } => ctx,
            PeerErr::RelayGone { ctx, .. } => ctx,
            PeerErr::Remote { ctx, .. } => ctx,
            PeerErr::Serialize { ctx } => ctx,
            PeerErr::Spawn { ctx } => ctx,
            PeerErr::Timeout { ctx } => ctx,
            PeerErr::UnknownService { ctx } => ctx,
            PeerErr::WireFormat { ctx, .. } => ctx,
        }
    }
}

} // verus!
