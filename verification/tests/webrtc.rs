use livekit_ffi::webrtc::{MediaType, Priority, RtpTransceiverDirection};

#[test]
fn media_type_repr_round_trips() {
    for t in [MediaType::Audio, MediaType::Video, MediaType::Data, MediaType::Unsupported] {
        assert_eq!(MediaType::from_repr(t.repr()), Some(t));
    }
    assert_eq!(MediaType::Data.repr(), 2);
    assert_eq!(MediaType::from_repr(4), None);
    assert_eq!(MediaType::from_repr(-1), None);
}

#[test]
fn priority_repr_round_trips() {
    for p in [Priority::VeryLow, Priority::Low, Priority::Medium, Priority::High] {
        assert_eq!(Priority::from_repr(p.repr()), Some(p));
    }
    assert_eq!(Priority::High.repr(), 3);
    assert_eq!(Priority::from_repr(9), None);
}

#[test]
fn direction_repr_round_trips() {
    for d in [
        RtpTransceiverDirection::SendRecv,
        RtpTransceiverDirection::SendOnly,
        RtpTransceiverDirection::RecvOnly,
        RtpTransceiverDirection::Inactive,
        RtpTransceiverDirection::Stopped,
    ] {
        assert_eq!(RtpTransceiverDirection::from_repr(d.repr()), Some(d));
    }
    assert_eq!(RtpTransceiverDirection::Stopped.repr(), 4);
    assert_eq!(RtpTransceiverDirection::from_repr(5), None);
}
