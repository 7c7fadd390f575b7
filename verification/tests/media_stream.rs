use livekit_ffi::media_stream::{
    AudioTrack, MediaStream, MediaStreamTrack, TrackKind, TrackState, VideoTrack,
};

#[test]
fn tracks_report_their_fields() {
    let v = VideoTrack::new("cam".to_string(), true, TrackState::Live);
    assert_eq!(v.kind(), TrackKind::Video);
    assert_eq!(v.id(), "cam");
    assert!(v.enabled());
    assert_eq!(v.state(), TrackState::Live);
    assert!(v.as_video_track().is_some());
    assert!(v.as_audio_track().is_none());

    let a = AudioTrack::new("mic".to_string(), false, TrackState::Ended);
    assert_eq!(a.kind(), TrackKind::Audio);
    assert_eq!(a.id(), "mic");
    assert!(!a.enabled());
    assert_eq!(a.state(), TrackState::Ended);
    assert!(a.as_audio_track().is_some());
    assert!(a.as_video_track().is_none());
}

#[test]
fn set_enabled_reports_change() {
    let mut v = VideoTrack::new("cam".to_string(), true, TrackState::Live);
    assert!(!v.set_enabled(true));
    assert!(v.set_enabled(false));
    assert!(!v.enabled());
    assert!(!v.set_enabled(false));
    let mut a = AudioTrack::new("mic".to_string(), false, TrackState::Live);
    assert!(a.set_enabled(true));
    assert!(a.enabled());
}

#[test]
fn stream_lists_tracks_in_order() {
    let s = MediaStream::new(
        "stream".to_string(),
        vec![
            AudioTrack::new("a1".to_string(), true, TrackState::Live),
            AudioTrack::new("a2".to_string(), true, TrackState::Live),
        ],
        vec![VideoTrack::new("v1".to_string(), false, TrackState::Ended)],
    );
    assert_eq!(s.id(), "stream");
    let audio: Vec<String> = s.audio_tracks().iter().map(|t| t.id()).collect();
    assert_eq!(audio, vec!["a1".to_string(), "a2".to_string()]);
    let video = s.video_tracks();
    assert_eq!(video.len(), 1);
    assert_eq!(video[0].id(), "v1");
    assert!(!video[0].enabled());
}

#[test]
fn debug_output_names_fields() {
    let v = VideoTrack::new("cam".to_string(), true, TrackState::Live);
    assert_eq!(format!("{:?}", v), "VideoTrack { id: \"cam\", enabled: true, state: Live }");
    let s = MediaStream::new("s".to_string(), vec![], vec![v]);
    assert_eq!(
        format!("{:?}", s),
        "MediaStream { id: \"s\", audio_tracks: [], video_tracks: [VideoTrack { id: \"cam\", enabled: true, state: Live }] }"
    );
}
