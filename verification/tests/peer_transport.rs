use livekit_ffi::peer_transport::{
    IceCandidate, IceConnectionState, OfferStep, PeerTransport, SignalTarget, SignalingState,
};

fn candidate(n: i32) -> IceCandidate {
    IceCandidate {
        sdp_mid: format!("{}", n),
        sdp_mline_index: n,
        sdp: format!("candidate:{}", n),
    }
}

#[test]
fn connected_only_when_connected_or_completed() {
    let t = PeerTransport::new(SignalTarget::Publisher);
    assert!(t.is_connected(IceConnectionState::Connected));
    assert!(t.is_connected(IceConnectionState::Completed));
    for s in [
        IceConnectionState::New,
        IceConnectionState::Checking,
        IceConnectionState::Failed,
        IceConnectionState::Disconnected,
        IceConnectionState::Closed,
    ] {
        assert!(!t.is_connected(s));
    }
    assert_eq!(t.signal_target(), SignalTarget::Publisher);
}

#[test]
fn candidate_goes_straight_to_connection_with_remote_description() {
    let mut t = PeerTransport::new(SignalTarget::Subscriber);
    let c = t.add_ice_candidate(true, candidate(1)).unwrap();
    assert_eq!(c.sdp_mline_index, 1);
    assert!(t.set_remote_description().is_empty());
}

#[test]
fn candidates_queue_until_remote_description_in_arrival_order() {
    let mut t = PeerTransport::new(SignalTarget::Subscriber);
    for n in 0..3 {
        assert!(t.add_ice_candidate(false, candidate(n)).is_none());
    }
    let queued = t.set_remote_description();
    let order: Vec<i32> = queued.iter().map(|c| c.sdp_mline_index).collect();
    assert_eq!(order, vec![0, 1, 2]);
    assert_eq!(queued[2].sdp, "candidate:2");
    assert!(t.set_remote_description().is_empty());
    assert!(!t.candidates_applied());
}

#[test]
fn ice_restart_queues_even_with_remote_description() {
    let mut t = PeerTransport::new(SignalTarget::Publisher);
    t.prepare_ice_restart();
    assert!(t.add_ice_candidate(true, candidate(7)).is_none());
    assert_eq!(t.set_remote_description().len(), 1);
    t.candidates_applied();
    // the restart is over: candidates go straight through again
    assert!(t.add_ice_candidate(true, candidate(8)).is_some());
}

#[test]
fn offer_while_outstanding_is_deferred_and_sent_once() {
    let mut t = PeerTransport::new(SignalTarget::Publisher);
    assert_eq!(
        t.create_and_send_offer(false, SignalingState::HaveLocalOffer, true),
        OfferStep::Defer
    );
    assert!(t.set_remote_description().is_empty());
    assert!(t.candidates_applied());
    assert!(!t.candidates_applied());
}

#[test]
fn offer_steps() {
    let mut t = PeerTransport::new(SignalTarget::Publisher);
    assert_eq!(t.create_and_send_offer(false, SignalingState::Stable, false), OfferStep::Offer);
    assert_eq!(
        t.create_and_send_offer(true, SignalingState::HaveLocalOffer, true),
        OfferStep::ReapplyRemoteThenOffer
    );
    assert_eq!(
        t.create_and_send_offer(true, SignalingState::HaveLocalOffer, false),
        OfferStep::MissingRemoteThenOffer
    );
    assert_eq!(t.create_and_send_offer(true, SignalingState::Stable, true), OfferStep::Offer);
    // none of these deferred an offer
    assert!(!t.candidates_applied());
}

#[test]
fn offer_with_ice_restart_ends_restart() {
    let mut t = PeerTransport::new(SignalTarget::Publisher);
    t.prepare_ice_restart();
    assert_eq!(t.create_and_send_offer(true, SignalingState::Stable, true), OfferStep::Offer);
    assert!(t.add_ice_candidate(true, candidate(1)).is_some());
}

#[test]
fn deferred_offer_with_candidates_in_between() {
    let mut t = PeerTransport::new(SignalTarget::Publisher);
    assert_eq!(t.create_and_send_offer(false, SignalingState::HaveLocalOffer, true), OfferStep::Defer);
    assert!(t.add_ice_candidate(false, candidate(1)).is_none());
    assert_eq!(t.set_remote_description().len(), 1);
    assert!(t.candidates_applied());
    assert_eq!(t.create_and_send_offer(false, SignalingState::Stable, true), OfferStep::Offer);
    assert!(t.set_remote_description().is_empty());
    assert!(!t.candidates_applied());
}
