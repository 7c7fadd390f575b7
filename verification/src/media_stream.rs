//! Media streams and their audio and video tracks, as plain values: a track
//! has an id, an enabled flag and a life-cycle state.
use vstd::prelude::*;

verus! {

/// Life-cycle state of a track.
#[derive(Clone, Copy, Debug, PartialEq, Eq, Structural)]
pub enum TrackState {
    Live,
    Ended,
}

/// Whether a track carries audio or video.
#[derive(Clone, Copy, Debug, PartialEq, Eq, Structural)]
pub enum TrackKind {
    Audio,
    Video,
}

/// A video track.
#[derive(Debug)]
pub struct VideoTrack {
    id: String,
    enabled: bool,
    state: TrackState,
}

/// An audio track.
#[derive(Debug)]
pub struct AudioTrack {
    id: String,
    enabled: bool,
    state: TrackState,
}

/// A media stream: an id and the audio and video tracks it groups.
#[derive(Debug)]
pub struct MediaStream {
    id: String,
    audio_tracks: Vec<AudioTrack>,
    video_tracks: Vec<VideoTrack>,
}

/// Operations common to audio and video tracks.
pub trait MediaStreamTrack {
    /// Whether the track carries audio or video.
    spec fn kind_of(&self) -> TrackKind;

    /// The track's id.
    spec fn id_of(&self) -> Seq<char>;

    /// Whether the track is enabled.
    spec fn enabled_of(&self) -> bool;

    /// The track's life-cycle state.
    spec fn state_of(&self) -> TrackState;

    fn kind(&self) -> (k: TrackKind)
        ensures
            k == self.kind_of(),
    ;

    fn id(&self) -> (id: String)
        ensures
            id@ == self.id_of(),
    ;

    fn enabled(&self) -> (e: bool)
        ensures
            e == self.enabled_of(),
    ;

    /// Enables or disables the track; returns whether that changed it.
    fn set_enabled(&mut self, enabled: bool) -> (changed: bool)
        ensures
            changed == (old(self).enabled_of() != enabled),
            final(self).enabled_of() == enabled,
            final(self).kind_of() == old(self).kind_of(),
            final(self).id_of() == old(self).id_of(),
            final(self).state_of() == old(self).state_of(),
    ;

    fn state(&self) -> (s: TrackState)
        ensures
            s == self.state_of(),
    ;

    /// The track as a video track, if it is one.
    fn as_video_track(&self) -> (v: Option<&VideoTrack>)
        ensures
            v is Some ==> self.kind_of() == TrackKind::Video,
    {
        None
    }

    /// The track as an audio track, if it is one.
    fn as_audio_track(&self) -> (a: Option<&AudioTrack>)
        ensures
            a is Some ==> self.kind_of() == TrackKind::Audio,
    {
        None
    }
}

impl VideoTrack {
    /// A video track with the given id, enabled flag and state.
    pub fn new(id: String, enabled: bool, state: TrackState) -> (t: VideoTrack)
        ensures
            t.id_of() == id@,
            t.enabled_of() == enabled,
            t.state_of() == state,
    {
        VideoTrack { id, enabled, state }
    }
}

impl AudioTrack {
    /// An audio track with the given id, enabled flag and state.
    pub fn new(id: String, enabled: bool, state: TrackState) -> (t: AudioTrack)
        ensures
            t.id_of() == id@,
            t.enabled_of() == enabled,
            t.state_of() == state,
    {
        AudioTrack { id, enabled, state }
    }
}

impl MediaStreamTrack for VideoTrack {
    closed spec fn kind_of(&self) -> TrackKind {
        TrackKind::Video
    }

    closed spec fn id_of(&self) -> Seq<char> {
        self.id@
    }

    closed spec fn enabled_of(&self) -> bool {
        self.enabled
    }

    closed spec fn state_of(&self) -> TrackState {
        self.state
    }

    fn kind(&self) -> (k: TrackKind) {
        TrackKind::Video
    }

    fn id(&self) -> (id: String) {
        self.id.clone()
    }

    fn enabled(&self) -> (e: bool) {
        self.enabled
    }

    fn set_enabled(&mut self, enabled: bool) -> (changed: bool) {
        let changed = self.enabled != enabled;
        self.enabled = enabled;
        changed
    }

    fn state(&self) -> (s: TrackState) {
        self.state
    }

    fn as_video_track(&self) -> (v: Option<&VideoTrack>)
        ensures
            v == Some(self),
    {
        Some(self)
    }
}

impl MediaStreamTrack for AudioTrack {
    closed spec fn kind_of(&self) -> TrackKind {
        TrackKind::Audio
    }

    closed spec fn id_of(&self) -> Seq<char> {
        self.id@
    }

    closed spec fn enabled_of(&self) -> bool {
        self.enabled
    }

    closed spec fn state_of(&self) -> TrackState {
        self.state
    }

    fn kind(&self) -> (k: TrackKind) {
        TrackKind::Audio
    }

    fn id(&self) -> (id: String) {
        self.id.clone()
    }

    fn enabled(&self) -> (e: bool) {
        self.enabled
    }

    fn set_enabled(&mut self, enabled: bool) -> (changed: bool) {
        let changed = self.enabled != enabled;
        self.enabled = enabled;
        changed
    }

    fn state(&self) -> (s: TrackState) {
        self.state
    }

    fn as_audio_track(&self) -> (a: Option<&AudioTrack>)
        ensures
            a == Some(self),
    {
        Some(self)
    }
}

impl Clone for VideoTrack {
    fn clone(&self) -> (t: Self)
        ensures
            t == *self,
    {
        VideoTrack { id: self.id.clone(), enabled: self.enabled, state: self.state }
    }
}

impl Clone for AudioTrack {
    fn clone(&self) -> (t: Self)
        ensures
            t == *self,
    {
        AudioTrack { id: self.id.clone(), enabled: self.enabled, state: self.state }
    }
}

impl MediaStream {
    /// A stream with the given id and tracks.
    pub fn new(id: String, audio_tracks: Vec<AudioTrack>, video_tracks: Vec<VideoTrack>) -> (s:
        MediaStream)
        ensures
            s.id_of() == id@,
            s.audio_tracks_of() == audio_tracks@,
            s.video_tracks_of() == video_tracks@,
    {
        MediaStream { id, audio_tracks, video_tracks }
    }

    /// The stream's id.
    pub closed spec fn id_of(&self) -> Seq<char> {
        self.id@
    }

    /// The stream's audio tracks.
    pub closed spec fn audio_tracks_of(&self) -> Seq<AudioTrack> {
        self.audio_tracks@
    }

    /// The stream's video tracks.
    pub closed spec fn video_tracks_of(&self) -> Seq<VideoTrack> {
        self.video_tracks@
    }

    /// The stream's id.
    pub fn id(&self) -> (id: String)
        ensures
            id@ == self.id_of(),
    {
        self.id.clone()
    }

    /// The stream's audio tracks, in order.
    pub fn audio_tracks(&self) -> (tracks: Vec<AudioTrack>)
        ensures
            tracks@ == self.audio_tracks_of(),
    {
        let mut tracks: Vec<AudioTrack> = Vec::new();
        let n = self.audio_tracks.len();
        let mut i: usize = 0;
        while i < n
            invariant
                n == self.audio_tracks@.len(),
                i <= n,
                tracks@ == self.audio_tracks@.take(i as int),
            decreases n - i,
        {
            tracks.push(self.audio_tracks[i].clone());
            assert(self.audio_tracks@.take(i as int).push(self.audio_tracks@[i as int])
                =~= self.audio_tracks@.take(i + 1));
            i = i + 1;
        }
        assert(self.audio_tracks@.take(n as int) =~= self.audio_tracks@);
        tracks
    }

    /// The stream's video tracks, in order.
    pub fn video_tracks(&self) -> (tracks: Vec<VideoTrack>)
        ensures
            tracks@ == self.video_tracks_of(),
    {
        let mut tracks: Vec<VideoTrack> = Vec::new();
        let n = self.video_tracks.len();
        let mut i: usize = 0;
        while i < n
            invariant
                n == self.video_tracks@.len(),
                i <= n,
                tracks@ == self.video_tracks@.take(i as int),
            decreases n - i,
        {
            tracks.push(self.video_tracks[i].clone());
            assert(self.video_tracks@.take(i as int).push(self.video_tracks@[i as int])
                =~= self.video_tracks@.take(i + 1));
            i = i + 1;
        }
        assert(self.video_tracks@.take(n as int) =~= self.video_tracks@);
        tracks
    }
}

} // verus!
