//! The explicit close request and the teardown it triggers.
//!
//! A peer holds its own address so that its reader task can feed frames back
//! to it, which means it never goes away on its own: closing is an explicit
//! message. Processing it releases the sink — so the other end sees the
//! close — drops the self-reference and the reader's handle, and clears
//! every table, breaking the reference cycles that would otherwise keep the
//! connection alive.

use vstd::prelude::*;

use crate::peer::Peer;
use crate::peer::PeerAction;
use crate::peer::PeerState;
use crate::peer::peer_event::PeerEvent;

verus! {

/// Tells a peer to tear its connection down. `remote` says whether the far
/// end initiated it — the peer then reports closed-by-remote to observers
/// instead of closed.
#[derive(Debug, Clone, Copy, PartialEq, Eq, Structural)]
pub struct CloseConnection {
    /// True when teardown was triggered by the remote closing, false for a
    /// locally requested close.
    pub remote: bool,
}

impl Peer {
    /// Processes a close request: exactly one closed event goes to the
    /// observers, the sink is released, and every table is cleared. On an
    /// already closed connection the request is a no-op — nothing changes
    /// and no duplicate event is emitted.
    pub fn handle_close(&mut self, msg: CloseConnection) -> (r: Vec<PeerAction>)
        requires
            old(self).wf(),
        ensures
            final(self).wf(),
            old(self)@.state is Closed ==> final(self)@ == old(self)@ && r@.len() == 0,
            !(old(self)@.state is Closed) ==> {
                &&& final(self)@.state is Closed
                &&& final(self)@.services == Map::<u128, u64>::empty()
                &&& final(self)@.relayed == Map::<u128, u64>::empty()
                &&& final(self)@.relays == Set::<u64>::empty()
                &&& final(self)@.responses == Map::<u128, u64>::empty()
                &&& r@.len() == 2
                &&& r@[0] == (PeerAction::EmitEvent {
                    event: if msg.remote {
                        PeerEvent::ClosedByRemote
                    } else {
                        PeerEvent::Closed
                    },
                })
                &&& r@[1] == PeerAction::CloseSink
            },
    {
        let mut actions: Vec<PeerAction> = Vec::new();
        if let PeerState::Closed = self.state() {
            return actions;
        }
        if msg.remote {
            actions.push(PeerAction::EmitEvent { event: PeerEvent::ClosedByRemote });
        } else {
            actions.push(PeerAction::EmitEvent { event: PeerEvent::Closed });
        }
        actions.push(PeerAction::CloseSink);
        self.teardown();
        actions
    }
}

} // verus!
