//! Negotiation state of one peer connection of the RTC engine.
//!
//! The peer connection itself does its work elsewhere; this module holds the
//! decisions taken around it: which ICE candidates are queued until a remote
//! description is in place, when they are handed to the connection, and when
//! an offer is sent, deferred, or preceded by re-applying the remote
//! description.
use vstd::prelude::*;

verus! {

/// Which of the two transports of a session this is.
#[derive(Clone, Copy, Debug, PartialEq, Eq, Structural)]
pub enum SignalTarget {
    Publisher,
    Subscriber,
}

/// ICE connection state that the peer connection reports.
#[derive(Clone, Copy, Debug, PartialEq, Eq, Structural)]
pub enum IceConnectionState {
    New,
    Checking,
    Connected,
    Completed,
    Failed,
    Disconnected,
    Closed,
}

/// Signaling state that the peer connection reports.
#[derive(Clone, Copy, Debug, PartialEq, Eq, Structural)]
pub enum SignalingState {
    Stable,
    HaveLocalOffer,
    HaveLocalPrAnswer,
    HaveRemoteOffer,
    HaveRemotePrAnswer,
    Closed,
}

/// An ICE candidate received from the remote side.
#[derive(Debug)]
pub struct IceCandidate {
    pub sdp_mid: String,
    pub sdp_mline_index: i32,
    pub sdp: String,
}

/// What to do after being asked to create and send an offer.
#[derive(Clone, Copy, Debug, PartialEq, Eq, Structural)]
pub enum OfferStep {
    /// An offer is already outstanding: renegotiate once the answer is in.
    Defer,
    /// Restarting ICE with an offer outstanding: set the connection's current
    /// remote description again, then create and send the offer.
    ReapplyRemoteThenOffer,
    /// Restarting ICE with an offer outstanding but no remote description to
    /// re-apply: report it, then create and send the offer.
    MissingRemoteThenOffer,
    /// Create the offer, set it as local description and hand it to the
    /// offer handler.
    Offer,
}

/// Abstract state of a transport.
pub struct TransportView {
    pub signal_target: SignalTarget,
    pub pending: Seq<IceCandidate>,
    pub renegotiate: bool,
    pub restarting_ice: bool,
}

/// One of the two peer connections of a session, with its negotiation state.
pub struct PeerTransport {
    signal_target: SignalTarget,
    pending_candidates: Vec<IceCandidate>,
    renegotiate: bool,
    restarting_ice: bool,
}

impl View for PeerTransport {
    type V = TransportView;

    closed spec fn view(&self) -> TransportView {
        TransportView {
            signal_target: self.signal_target,
            pending: self.pending_candidates@,
            renegotiate: self.renegotiate,
            restarting_ice: self.restarting_ice,
        }
    }
}

/// A candidate can go to the connection at once: it has a remote
/// description and no ICE restart is under way.
pub open spec fn adds_directly(s: TransportView, has_remote_description: bool) -> bool {
    has_remote_description && !s.restarting_ice
}

/// State after receiving `c`: unchanged if it goes to the connection at
/// once, otherwise with `c` queued last.
pub open spec fn after_candidate(
    s: TransportView,
    has_remote_description: bool,
    c: IceCandidate,
) -> TransportView {
    if adds_directly(s, has_remote_description) {
        s
    } else {
        TransportView { pending: s.pending.push(c), ..s }
    }
}

/// State after the connection accepted a remote description: nothing queued.
pub open spec fn after_drain(s: TransportView) -> TransportView {
    TransportView { pending: Seq::empty(), ..s }
}

/// State once the queued candidates are in: no restart under way and no
/// renegotiation owed.
pub open spec fn after_candidates_applied(s: TransportView) -> TransportView {
    TransportView { renegotiate: false, restarting_ice: false, ..s }
}

/// The step taken when asked for an offer.
pub open spec fn offer_step(
    ice_restart: bool,
    signaling_state: SignalingState,
    has_remote_description: bool,
) -> OfferStep {
    if signaling_state == SignalingState::HaveLocalOffer {
        if ice_restart {
            if has_remote_description {
                OfferStep::ReapplyRemoteThenOffer
            } else {
                OfferStep::MissingRemoteThenOffer
            }
        } else {
            OfferStep::Defer
        }
    } else {
        OfferStep::Offer
    }
}

/// State after being asked for an offer.
pub open spec fn after_offer_request(
    s: TransportView,
    ice_restart: bool,
    signaling_state: SignalingState,
) -> TransportView {
    let s1 = if ice_restart {
        TransportView { restarting_ice: false, ..s }
    } else {
        s
    };
    if signaling_state == SignalingState::HaveLocalOffer && !ice_restart {
        TransportView { renegotiate: true, ..s1 }
    } else {
        s1
    }
}

/// The transport counts as connected in these ICE states.
pub open spec fn connected_state(s: IceConnectionState) -> bool {
    s == IceConnectionState::Connected || s == IceConnectionState::Completed
}

impl PeerTransport {
    /// A transport for `signal_target` with nothing queued and nothing owed.
    pub fn new(signal_target: SignalTarget) -> (t: PeerTransport)
        ensures
            t@.signal_target == signal_target,
            t@.pending == Seq::<IceCandidate>::empty(),
            !t@.renegotiate,
            !t@.restarting_ice,
    {
        PeerTransport {
            signal_target,
            pending_candidates: Vec::new(),
            renegotiate: false,
            restarting_ice: false,
        }
    }

    /// Whether a connection in ICE state `ice_state` is connected.
    pub fn is_connected(&self, ice_state: IceConnectionState) -> (r: bool)
        ensures
            r == connected_state(ice_state),
    {
        match ice_state {
            IceConnectionState::Connected | IceConnectionState::Completed => true,
            _ => false,
        }
    }

    /// Which transport of the session this is.
    pub fn signal_target(&self) -> (t: SignalTarget)
        ensures
            t == self@.signal_target,
    {
        self.signal_target
    }

    /// Candidates received from now on are queued until the next remote
    /// description is in place.
    pub fn prepare_ice_restart(&mut self)
        ensures
            final(self)@ == (TransportView { restarting_ice: true, ..old(self)@ }),
    {
        self.restarting_ice = true;
    }

    /// Receives a candidate. Returns it when it is to be added to the
    /// connection now; otherwise queues it and returns `None`.
    pub fn add_ice_candidate(&mut self, has_remote_description: bool, candidate: IceCandidate) -> (r:
        Option<IceCandidate>)
        ensures
            final(self)@ == after_candidate(old(self)@, has_remote_description, candidate),
            adds_directly(old(self)@, has_remote_description) ==> r == Some(candidate),
            !adds_directly(old(self)@, has_remote_description) ==> r is None,
    {
        if has_remote_description && !self.restarting_ice {
            return Some(candidate);
        }
        self.pending_candidates.push(candidate);
        None
    }

    /// The connection accepted a remote description: hands out every queued
    /// candidate, oldest first, and empties the queue.
    pub fn set_remote_description(&mut self) -> (queued: Vec<IceCandidate>)
        ensures
            queued@ == old(self)@.pending,
            final(self)@ == after_drain(old(self)@),
    {
        let mut queued: Vec<IceCandidate> = Vec::new();
        std::mem::swap(&mut queued, &mut self.pending_candidates);
        queued
    }

    /// Every queued candidate was added: the ICE restart, if any, is over.
    /// Returns whether a deferred offer is now to be created and sent.
    pub fn candidates_applied(&mut self) -> (send_offer: bool)
        ensures
            send_offer == old(self)@.renegotiate,
            final(self)@ == after_candidates_applied(old(self)@),
    {
        let send_offer = self.renegotiate;
        self.restarting_ice = false;
        self.renegotiate = false;
        send_offer
    }

    /// Decides what creating and sending an offer takes, given whether the
    /// offer restarts ICE and what the connection reports.
    pub fn create_and_send_offer(
        &mut self,
        ice_restart: bool,
        signaling_state: SignalingState,
        has_remote_description: bool,
    ) -> (step: OfferStep)
        ensures
            step == offer_step(ice_restart, signaling_state, has_remote_description),
            final(self)@ == after_offer_request(old(self)@, ice_restart, signaling_state),
    {
        if ice_restart {
            self.restarting_ice = false;
        }
        if signaling_state == SignalingState::HaveLocalOffer {
            if ice_restart {
                if has_remote_description {
                    OfferStep::ReapplyRemoteThenOffer
                } else {
                    OfferStep::MissingRemoteThenOffer
                }
            } else {
                self.renegotiate = true;
                OfferStep::Defer
            }
        } else {
            OfferStep::Offer
        }
    }
}

/// State after receiving the candidates `cs` one after another while the
/// connection has no remote description.
pub open spec fn after_candidates_without_remote(s: TransportView, cs: Seq<IceCandidate>) -> TransportView
    decreases cs.len(),
{
    if cs.len() == 0 {
        s
    } else {
        after_candidate(after_candidates_without_remote(s, cs.drop_last()), false, cs.last())
    }
}

/// Law: candidates that arrive before the remote description are kept, in
/// the order they arrived, behind those already queued; the flags are
/// untouched.
pub proof fn candidates_queue_in_arrival_order(s: TransportView, cs: Seq<IceCandidate>)
    ensures
        after_candidates_without_remote(s, cs).pending == s.pending + cs,
        after_candidates_without_remote(s, cs).renegotiate == s.renegotiate,
        after_candidates_without_remote(s, cs).restarting_ice == s.restarting_ice,
        after_candidates_without_remote(s, cs).signal_target == s.signal_target,
    decreases cs.len(),
{
    if cs.len() == 0 {
        assert(s.pending + cs =~= s.pending);
    } else {
        candidates_queue_in_arrival_order(s, cs.drop_last());
        assert(s.pending + cs.drop_last() + seq![cs.last()] =~= s.pending + cs);
    }
}

/// Law: once the remote description is set, the candidates queued before it
/// are handed out exactly, oldest first, and none stays queued.
pub proof fn remote_description_flushes_queue(s: TransportView, cs: Seq<IceCandidate>)
    requires
        s.pending.len() == 0,
    ensures
        after_candidates_without_remote(s, cs).pending == cs,
        after_drain(after_candidates_without_remote(s, cs)).pending.len() == 0,
{
    candidates_queue_in_arrival_order(s, cs);
    assert(s.pending + cs =~= cs);
}

/// Law: while an ICE restart is being prepared, every candidate is queued,
/// whether or not the connection has a remote description.
pub proof fn restart_queues_every_candidate(s: TransportView, has_remote_description: bool, c: IceCandidate)
    ensures
        after_candidate(
            TransportView { restarting_ice: true, ..s },
            has_remote_description,
            c,
        ).pending == s.pending.push(c),
{
}

/// Law: an offer is created at once unless the connection already has a
/// local offer outstanding; then it is deferred, unless it restarts ICE, in
/// which case the remote description is re-applied first when there is one
/// and reported missing when there is none. Only a deferred offer leaves a
/// renegotiation owed.
pub proof fn offer_steps_by_state(
    s: TransportView,
    ice_restart: bool,
    signaling_state: SignalingState,
    has_remote_description: bool,
)
    ensures
        (offer_step(ice_restart, signaling_state, has_remote_description) == OfferStep::Offer)
            <==> signaling_state != SignalingState::HaveLocalOffer,
        (offer_step(ice_restart, signaling_state, has_remote_description) == OfferStep::Defer)
            <==> (signaling_state == SignalingState::HaveLocalOffer && !ice_restart),
        (offer_step(ice_restart, signaling_state, has_remote_description)
            == OfferStep::ReapplyRemoteThenOffer) <==> (signaling_state
            == SignalingState::HaveLocalOffer && ice_restart && has_remote_description),
        (offer_step(ice_restart, signaling_state, has_remote_description)
            == OfferStep::MissingRemoteThenOffer) <==> (signaling_state
            == SignalingState::HaveLocalOffer && ice_restart && !has_remote_description),
        after_offer_request(s, ice_restart, signaling_state).renegotiate == (s.renegotiate
            || offer_step(ice_restart, signaling_state, has_remote_description) == OfferStep::Defer),
{
}

/// Law: asking for an offer that restarts ICE ends the restart, whatever the
/// signaling state: no restart is under way afterwards, no renegotiation is
/// added, nothing queued changes, and so a candidate that then finds a
/// remote description goes to the connection at once. An offer that does
/// not restart ICE leaves a restart under way as it was.
pub proof fn restart_offer_ends_the_restart(
    s: TransportView,
    signaling_state: SignalingState,
    c: IceCandidate,
)
    ensures
        !after_offer_request(s, true, signaling_state).restarting_ice,
        after_offer_request(s, true, signaling_state).renegotiate == s.renegotiate,
        after_offer_request(s, true, signaling_state).pending == s.pending,
        adds_directly(after_offer_request(s, true, signaling_state), true),
        after_candidate(after_offer_request(s, true, signaling_state), true, c)
            == after_offer_request(s, true, signaling_state),
        after_offer_request(s, false, signaling_state).restarting_ice == s.restarting_ice,
        after_offer_request(s, false, signaling_state).pending == s.pending,
{
}

/// Law: an offer deferred because one was outstanding is sent once, when the
/// next remote description's candidates are in, and not again after that.
pub proof fn deferred_offer_is_sent_once(
    s: TransportView,
    ice_restart: bool,
    signaling_state: SignalingState,
    has_remote_description: bool,
)
    requires
        offer_step(ice_restart, signaling_state, has_remote_description) == OfferStep::Defer,
    ensures
        after_offer_request(s, ice_restart, signaling_state).renegotiate,
        !after_candidates_applied(after_drain(after_offer_request(s, ice_restart, signaling_state))).renegotiate,
{
}

/// Law: an offer deferred because one was outstanding is sent exactly once.
/// Candidates that arrive meanwhile do not cancel it; once the answer is set
/// and its candidates are applied, `candidates_applied` asks for the offer;
/// when it is then requested with the connection out of have-local-offer,
/// it is created at once, and no later application asks for it again.
pub proof fn deferred_offer_sent_exactly_once(
    s: TransportView,
    has_remote_description: bool,
    cs: Seq<IceCandidate>,
    signaling_state: SignalingState,
    has_remote_after: bool,
)
    requires
        signaling_state != SignalingState::HaveLocalOffer,
    ensures
        offer_step(false, SignalingState::HaveLocalOffer, has_remote_description) == OfferStep::Defer,
        ({
            let s1 = after_offer_request(s, false, SignalingState::HaveLocalOffer);
            let s2 = after_drain(after_candidates_without_remote(s1, cs));
            let s3 = after_candidates_applied(s2);
            let s4 = after_offer_request(s3, false, signaling_state);
            &&& s2.renegotiate
            &&& offer_step(false, signaling_state, has_remote_after) == OfferStep::Offer
            &&& !s4.renegotiate
            &&& !after_candidates_applied(after_drain(s4)).renegotiate
        }),
{
    let s1 = after_offer_request(s, false, SignalingState::HaveLocalOffer);
    candidates_queue_in_arrival_order(s1, cs);
}

} // verus!
