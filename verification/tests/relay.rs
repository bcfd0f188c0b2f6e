//! End-to-end relay scenarios, driven synchronously: peers A, B and C hold
//! their own state machines, and the test plays the runtime — it moves
//! frames between them and performs each returned action.

use thespis_remote::BytesFormat;
use thespis_remote::Call;
use thespis_remote::ConnID;
use thespis_remote::ConnectionError;
use thespis_remote::Peer;
use thespis_remote::PeerAction;
use thespis_remote::PeerEvent;
use thespis_remote::PeerState;
use thespis_remote::RelayCallOutcome;
use thespis_remote::ServiceID;

const SM_ADD: u64 = 1;
const RELAY_B: u64 = 77;

// The Add service: state is a running sum; a call payload carries one
// operand byte and is answered with the new sum.
fn add_service(sum: &mut u8, payload: &[u8]) -> u8 {
    *sum += payload[0];
    *sum
}

// Peer A calls Add(5) on peer B through the one-hop relay C and receives
// the correct numeric response.
#[test]
fn relay_once() {
    let sid_add = ServiceID::from_seed(b"remotes::Add");

    let mut peer_a = Peer::new(); // consumer, connected to C
    let mut peer_c = Peer::new(); // relay, forwards Add to B
    let mut peer_b = Peer::new(); // provider
    let mut sum: u8 = 0;

    peer_b.register_services(&vec![sid_add], SM_ADD);
    peer_c.register_relayed_services(&vec![sid_add], RELAY_B).expect("register relay");

    // A starts the call.
    let cid = ConnID::random();
    assert!(!cid.is_null());
    let call_frame = BytesFormat::create(sid_add, cid, vec![5]);
    let actions = peer_a.handle_call(Call::new(call_frame), 900).expect("call");
    let on_wire = match actions.into_iter().next().unwrap() {
        PeerAction::SendFrame { frame } => frame,
        other => panic!("expected SendFrame, got {:?}", other),
    };

    // The wire delivers the frame to C, which routes it to the relay.
    let actions = peer_c.handle_incoming(on_wire);
    let (relay, forwarded) = match actions.into_iter().next().unwrap() {
        PeerAction::CallRelay { relay, frame } => (relay, frame),
        other => panic!("expected CallRelay, got {:?}", other),
    };
    assert_eq!(relay, RELAY_B);

    // C's background task calls B over the relay connection.
    let actions = peer_b.handle_incoming(forwarded);
    let (sm, for_service) = match actions.into_iter().next().unwrap() {
        PeerAction::CallService { sm, frame } => (sm, frame),
        other => panic!("expected CallService, got {:?}", other),
    };
    assert_eq!(sm, SM_ADD);

    // B's registry runs the handler and answers under the same conn id.
    let result = add_service(&mut sum, &for_service.mesg());
    assert_eq!(result, 5);
    let response = BytesFormat::create(sid_add, for_service.conn_id(), vec![result]);

    // The response travels back to C's relay task, which sends it out on
    // C's own connection to A.
    let actions = peer_c.handle_relay_call_outcome(
        sid_add,
        cid,
        RelayCallOutcome::Response(response),
    );
    let back_on_wire = match actions.into_iter().next().unwrap() {
        PeerAction::SendFrame { frame } => frame,
        other => panic!("expected SendFrame, got {:?}", other),
    };

    // A correlates the response with its call.
    let actions = peer_a.handle_incoming(back_on_wire);
    match actions.into_iter().next().unwrap() {
        PeerAction::CompleteResponse { token, response } => {
            assert_eq!(token, 900);
            let frame = response.expect("successful response");
            assert_eq!(frame.conn_id(), cid);
            assert_eq!(frame.mesg(), vec![5]);
        }
        other => panic!("expected CompleteResponse, got {:?}", other),
    }
    assert!(!peer_a.has_response(cid));
}

// C loses its connection to B mid-call: A receives a relay-loss error, and
// A's connection to C stays usable for the next call.
#[test]
fn relay_lost_mid_call() {
    let sid_add = ServiceID::from_seed(b"remotes::Add");

    let mut peer_a = Peer::new();
    let mut peer_c = Peer::new();
    peer_c.register_relayed_services(&vec![sid_add], RELAY_B).expect("register relay");

    let cid = ConnID::random();
    let call_frame = BytesFormat::create(sid_add, cid, vec![5]);
    let actions = peer_a.handle_call(Call::new(call_frame), 901).expect("call");
    let on_wire = match actions.into_iter().next().unwrap() {
        PeerAction::SendFrame { frame } => frame,
        other => panic!("expected SendFrame, got {:?}", other),
    };

    let actions = peer_c.handle_incoming(on_wire);
    assert!(matches!(actions[0], PeerAction::CallRelay { relay: RELAY_B, .. }));

    // The relay connection dies before the response comes back.
    let actions = peer_c.handle_relay_call_outcome(sid_add, cid, RelayCallOutcome::ChannelDropped);
    let err_on_wire = match actions.into_iter().next().unwrap() {
        PeerAction::SendFrame { frame } => frame,
        other => panic!("expected SendFrame, got {:?}", other),
    };
    assert_eq!(peer_c.state(), PeerState::Open);

    // A sees a remote error completing its call with relay loss.
    let actions = peer_a.handle_incoming(err_on_wire);
    assert_eq!(actions.len(), 2);
    assert_eq!(
        actions[0],
        PeerAction::EmitEvent {
            event: PeerEvent::RemoteError(ConnectionError::LostRelayBeforeResponse)
        }
    );
    match &actions[1] {
        PeerAction::CompleteResponse { token, response } => {
            assert_eq!(*token, 901);
            assert_eq!(
                response.as_ref().unwrap_err(),
                &ConnectionError::LostRelayBeforeResponse
            );
        }
        other => panic!("expected CompleteResponse, got {:?}", other),
    }

    // Both connections remain open: a further call still goes out and C
    // still routes it.
    assert_eq!(peer_a.state(), PeerState::Open);
    let cid2 = ConnID::random();
    let actions = peer_a
        .handle_call(Call::new(BytesFormat::create(sid_add, cid2, vec![1])), 902)
        .expect("second call");
    let on_wire = match actions.into_iter().next().unwrap() {
        PeerAction::SendFrame { frame } => frame,
        other => panic!("expected SendFrame, got {:?}", other),
    };
    let actions = peer_c.handle_incoming(on_wire);
    assert!(matches!(actions[0], PeerAction::CallRelay { relay: RELAY_B, .. }));
}

// A call through the relay for a service nobody provides comes back as an
// unknown-service error, and no connection closes.
#[test]
fn relay_unknown_service() {
    let sid_add = ServiceID::from_seed(b"remotes::Add");
    let sid_other = ServiceID::from_seed(b"remotes::Whatever");

    let mut peer_a = Peer::new();
    let mut peer_c = Peer::new();
    peer_c.register_relayed_services(&vec![sid_add], RELAY_B).expect("register relay");

    // A calls a service C neither provides nor relays.
    let cid = ConnID::random();
    let actions = peer_a
        .handle_call(Call::new(BytesFormat::create(sid_other, cid, vec![5])), 903)
        .expect("call");
    let on_wire = match actions.into_iter().next().unwrap() {
        PeerAction::SendFrame { frame } => frame,
        other => panic!("expected SendFrame, got {:?}", other),
    };

    // C answers with unknown-service under the call's conn id.
    let actions = peer_c.handle_incoming(on_wire);
    assert_eq!(actions.len(), 2);
    let err_on_wire = match &actions[0] {
        PeerAction::SendFrame { frame } => frame.clone(),
        other => panic!("expected SendFrame, got {:?}", other),
    };
    assert_eq!(peer_c.state(), PeerState::Open);

    // A's call completes with the error; its connection stays usable.
    let actions = peer_a.handle_incoming(err_on_wire);
    match &actions[1] {
        PeerAction::CompleteResponse { token, response } => {
            assert_eq!(*token, 903);
            assert_eq!(
                response.as_ref().unwrap_err(),
                &ConnectionError::UnknownService(sid_other.to_bytes())
            );
        }
        other => panic!("expected CompleteResponse, got {:?}", other),
    }
    assert_eq!(peer_a.state(), PeerState::Open);
}

// Two relay hops deep: A calls B through C and D; the response finds its
// way back with the right correlation at every hop.
#[test]
fn relay_multi() {
    let sid_add = ServiceID::from_seed(b"remotes::Add");
    const RELAY_D: u64 = 78;

    let mut peer_a = Peer::new();
    let mut peer_c = Peer::new(); // relays to D
    let mut peer_d = Peer::new(); // relays to B
    let mut peer_b = Peer::new(); // provider
    let mut sum: u8 = 10;

    peer_b.register_services(&vec![sid_add], SM_ADD);
    peer_d.register_relayed_services(&vec![sid_add], RELAY_B).expect("register relay d");
    peer_c.register_relayed_services(&vec![sid_add], RELAY_D).expect("register relay c");

    let cid = ConnID::random();
    let actions = peer_a
        .handle_call(Call::new(BytesFormat::create(sid_add, cid, vec![7])), 904)
        .expect("call");
    let on_wire = match actions.into_iter().next().unwrap() {
        PeerAction::SendFrame { frame } => frame,
        other => panic!("expected SendFrame, got {:?}", other),
    };

    let actions = peer_c.handle_incoming(on_wire);
    let hop1 = match actions.into_iter().next().unwrap() {
        PeerAction::CallRelay { relay, frame } => {
            assert_eq!(relay, RELAY_D);
            frame
        }
        other => panic!("expected CallRelay, got {:?}", other),
    };

    let actions = peer_d.handle_incoming(hop1);
    let hop2 = match actions.into_iter().next().unwrap() {
        PeerAction::CallRelay { relay, frame } => {
            assert_eq!(relay, RELAY_B);
            frame
        }
        other => panic!("expected CallRelay, got {:?}", other),
    };

    let actions = peer_b.handle_incoming(hop2);
    let for_service = match actions.into_iter().next().unwrap() {
        PeerAction::CallService { sm, frame } => {
            assert_eq!(sm, SM_ADD);
            frame
        }
        other => panic!("expected CallService, got {:?}", other),
    };

    let result = add_service(&mut sum, &for_service.mesg());
    assert_eq!(result, 17);
    let response = BytesFormat::create(sid_add, for_service.conn_id(), vec![result]);

    // The response retraces the chain: B -> D's waiter -> C's waiter -> A.
    let actions =
        peer_d.handle_relay_call_outcome(sid_add, cid, RelayCallOutcome::Response(response));
    let back1 = match actions.into_iter().next().unwrap() {
        PeerAction::SendFrame { frame } => frame,
        other => panic!("expected SendFrame, got {:?}", other),
    };
    let actions =
        peer_c.handle_relay_call_outcome(sid_add, cid, RelayCallOutcome::Response(back1));
    let back2 = match actions.into_iter().next().unwrap() {
        PeerAction::SendFrame { frame } => frame,
        other => panic!("expected SendFrame, got {:?}", other),
    };
    let actions = peer_a.handle_incoming(back2);
    match actions.into_iter().next().unwrap() {
        PeerAction::CompleteResponse { token, response } => {
            assert_eq!(token, 904);
            assert_eq!(response.expect("success").mesg(), vec![17]);
        }
        other => panic!("expected CompleteResponse, got {:?}", other),
    }
}

// A send for a service relayed through a vanished relay is answered with
// failed-to-relay, detected at forward time.
#[test]
fn relay_send_forward_failure() {
    let sid_add = ServiceID::from_seed(b"remotes::Add");
    let mut peer_c = Peer::new();
    peer_c.register_relayed_services(&vec![sid_add], RELAY_B).expect("register relay");

    let frame = BytesFormat::create(sid_add, ConnID::null(), vec![5]);
    let actions = peer_c.handle_incoming(frame);
    assert!(matches!(actions[0], PeerAction::ForwardToRelay { relay: RELAY_B, .. }));

    // The runtime finds the relay's address dead and reports back.
    let actions = peer_c.handle_forward_failed(sid_add);
    assert_eq!(actions.len(), 2);
    match &actions[0] {
        PeerAction::SendFrame { frame } => {
            let err = ConnectionError::decode(&frame.mesg()).expect("decodes");
            assert_eq!(err, ConnectionError::FailedToRelay(sid_add.to_bytes()));
        }
        other => panic!("expected SendFrame, got {:?}", other),
    }
    assert_eq!(peer_c.state(), PeerState::Open);
}
