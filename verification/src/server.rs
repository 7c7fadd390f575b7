//! The FFI server: the callback configuration, the table of handles that
//! the foreign side refers to by id, the rooms it is connected to, and the
//! answer to each request.
//!
//! Requests are answered at once. What has to happen afterwards outside the
//! library (connecting, publishing, converting pixels, pushing frames) is
//! returned alongside the answer as an [`FfiTask`]; requests that belong to
//! the stream and audio modules are returned as [`Forwarded`].
use std::collections::HashMap;
use vstd::prelude::*;

use crate::error::{fails_with, invalid_request, FfiError};
use crate::media_stream::TrackKind;
use crate::proto::{
    AllocAudioBufferRequest, AllocVideoBufferRequest, ArgbBufferInfo, AudioFrameBufferInfo,
    CaptureAudioFrameRequest, CaptureVideoFrameRequest, ConnectRequest, CreateAudioTrackRequest,
    CreateVideoTrackRequest, DisconnectRequest, DisposeRequest, FfiHandleId, FfiRequest,
    InitializeRequest, NewAudioSourceRequest, NewAudioStreamRequest, NewVideoSourceRequest,
    NewVideoStreamRequest, PublishTrackRequest, RequestMessage, ResponseMessage, ToArgbRequest,
    ToI420From, ToI420Request, TrackInfo, UnpublishTrackRequest, VideoFormatType,
    VideoFrameBufferInfo, VideoFrameBufferType, VideoSourceInfo,
};
use crate::video_source::{
    capture_error, captured_frame, source_for, FfiVideoSource, VideoFrame,
};

verus! {

broadcast use vstd::std_specs::hash::group_hash_axioms;

/// Where events go: the address of the foreign callback.
#[derive(Clone, Copy, Debug, PartialEq, Eq, Structural)]
pub struct FfiConfig {
    pub callback_fn: u64,
}

/// A local track created by the server: its name and the handle of the
/// source that feeds it.
#[derive(Debug)]
pub struct TrackRecord {
    pub name: String,
    pub source: u64,
}

/// A video frame buffer held by the server.
#[derive(Clone, Copy, Debug, PartialEq, Eq, Structural)]
pub struct VideoFrameBuffer {
    pub buffer_type: VideoFrameBufferType,
    pub width: u32,
    pub height: u32,
    pub stride_y: u32,
    pub stride_u: u32,
    pub stride_v: u32,
}

/// An audio frame held by the server.
#[derive(Clone, Copy, Debug, PartialEq, Eq, Structural)]
pub struct AudioFrame {
    pub sample_rate: u32,
    pub num_channels: u32,
    pub samples_per_channel: u32,
}

/// What a handle refers to.
#[derive(Debug)]
pub enum FfiHandle {
    VideoSource(FfiVideoSource),
    AudioSource,
    VideoStream,
    AudioStream,
    VideoFrameBuffer(VideoFrameBuffer),
    AudioFrame(AudioFrame),
    LocalVideoTrack(TrackRecord),
    LocalAudioTrack(TrackRecord),
    LocalTrack(TrackRecord),
}

/// Work that follows an answer and is done outside the library.
#[derive(Debug)]
pub enum FfiTask {
    Nothing,
    /// Close these rooms, waiting for it when `blocking`.
    CloseRooms { rooms: Vec<String>, blocking: bool },
    /// Connect to a room; report the outcome under `async_id`.
    Connect { async_id: u64, request: ConnectRequest },
    /// Publish a track; report the outcome under `async_id`.
    PublishTrack { async_id: u64, request: PublishTrackRequest },
    /// Create the video track `name` registered under `handle`, fed by
    /// `source`.
    CreateVideoTrack { handle: u64, source: u64, name: String },
    /// Create the audio track `name` registered under `handle`, fed by
    /// `source`.
    CreateAudioTrack { handle: u64, source: u64, name: String },
    /// Allocate the pixels of the buffer registered under `handle`.
    AllocateVideoBuffer { handle: u64 },
    /// Push `frame` into the source registered under `source`.
    PushVideoFrame { source: u64, frame: VideoFrame },
    /// Convert the caller's image into the buffer registered under `target`;
    /// a negative height mirrors the image vertically.
    ConvertArgbToI420 { target: u64, image: ArgbBufferInfo, width: i32, height: i32 },
    /// Convert the buffer under `source` into the buffer under `target`.
    ConvertBufferToI420 { target: u64, source: u64 },
    /// Convert the buffer under `buffer` into the caller's image at
    /// `dst_ptr`; a negative height mirrors the image vertically.
    ConvertToArgb {
        buffer: u64,
        dst_ptr: u64,
        format: VideoFormatType,
        stride: u32,
        width: i32,
        height: i32,
    },
    /// Allocate the samples of the audio frame registered under `handle`.
    AllocateAudioFrame { handle: u64 },
}

/// Requests answered by the modules that own their subject.
#[derive(Debug)]
pub enum Forwarded {
    NewVideoStream(NewVideoStreamRequest),
    NewAudioStream(NewAudioStreamRequest),
    NewAudioSource(NewAudioSourceRequest),
    /// Push an audio frame into the audio source registered under `source`.
    CaptureAudioFrame { source: u64, request: CaptureAudioFrameRequest },
}

/// How a request is answered.
#[derive(Debug)]
pub enum Reply {
    /// Answered now; the task is then carried out.
    Respond(ResponseMessage, FfiTask),
    /// By the module the request is forwarded to.
    Forward(Forwarded),
}

/// Abstract state of the server.
pub struct ServerView {
    /// Ids of the rooms the server is connected to.
    pub rooms: Seq<Seq<char>>,
    /// What each handle refers to.
    pub handles: Map<u64, FfiHandle>,
    /// The id the next handle or asynchronous operation gets.
    pub next_id: u64,
    /// Where events go, once initialized.
    pub config: Option<FfiConfig>,
}

/// The id that follows `n` (ids wrap around after the largest).
pub open spec fn id_after(n: u64) -> u64 {
    if n == u64::MAX {
        0
    } else {
        (n + 1) as u64
    }
}

impl ServerView {
    /// No room is listed twice, and every handle has an id in `1..next_id`
    /// (0 is never a valid id).
    pub open spec fn wf(self) -> bool {
        &&& self.rooms.no_duplicates()
        &&& self.next_id >= 1
        &&& forall|k: u64| #[trigger] self.handles.contains_key(k) ==> 1 <= k < self.next_id
    }

    /// The state after an id is taken.
    pub open spec fn allocated(self) -> ServerView {
        ServerView { next_id: id_after(self.next_id), ..self }
    }

    /// The state after `h` is stored under a newly taken id.
    pub open spec fn stored(self, h: FfiHandle) -> ServerView {
        ServerView {
            handles: self.handles.insert(self.next_id, h),
            next_id: id_after(self.next_id),
            ..self
        }
    }
}

/// The ids of a list of rooms.
pub open spec fn room_ids(rooms: Seq<String>) -> Seq<Seq<char>> {
    rooms.map_values(|s: String| s@)
}

/// The FFI server's state.
pub struct FfiServer {
    rooms: Vec<String>,
    ffi_handles: HashMap<u64, FfiHandle>,
    next_id: u64,
    config: Option<FfiConfig>,
}

impl View for FfiServer {
    type V = ServerView;

    closed spec fn view(&self) -> ServerView {
        ServerView {
            rooms: room_ids(self.rooms@),
            handles: self.ffi_handles@,
            next_id: self.next_id,
            config: self.config,
        }
    }
}

/// A fresh I420 buffer of `w` by `h` pixels, its chroma rows half as wide
/// (rounded up).
pub open spec fn i420_buffer(w: u32, h: u32) -> VideoFrameBuffer {
    VideoFrameBuffer {
        buffer_type: VideoFrameBufferType::I420,
        width: w,
        height: h,
        stride_y: w,
        stride_u: ((w + 1) / 2) as u32,
        stride_v: ((w + 1) / 2) as u32,
    }
}

/// The description of buffer `b` held under `id`.
pub open spec fn buffer_info(id: u64, b: VideoFrameBuffer) -> VideoFrameBufferInfo {
    VideoFrameBufferInfo {
        handle: FfiHandleId { id },
        buffer_type: b.buffer_type,
        width: b.width,
        height: b.height,
        stride_y: b.stride_y,
        stride_u: b.stride_u,
        stride_v: b.stride_v,
    }
}

/// Height as handed to the pixel routines: negative to mirror vertically.
pub open spec fn signed_height(h: u32, flip_y: bool) -> int {
    if flip_y {
        -((h as i32) as int)
    } else {
        (h as i32) as int
    }
}

/// `res` answers with `m` and nothing to do afterwards.
pub open spec fn answers(res: Result<Reply, FfiError>, m: ResponseMessage) -> bool {
    res == Ok::<Reply, FfiError>(Reply::Respond(m, FfiTask::Nothing))
}

/// `Initialize`: sets the event callback, unless one is set already.
pub open spec fn initialize_outcome(
    pre: ServerView,
    q: InitializeRequest,
    post: ServerView,
    res: Result<Reply, FfiError>,
) -> bool {
    if pre.config is Some {
        post == pre && res matches Err(FfiError::AlreadyInitialized)
    } else {
        &&& post == ServerView {
            config: Some(FfiConfig { callback_fn: q.event_callback_ptr }),
            ..pre
        }
        &&& answers(res, ResponseMessage::Initialize)
    }
}

/// `Dispose`: drops the callback and hands every room over to be closed;
/// an asynchronous teardown takes an id to report under.
pub open spec fn dispose_outcome(
    pre: ServerView,
    q: DisposeRequest,
    post: ServerView,
    res: Result<Reply, FfiError>,
) -> bool {
    &&& post.config is None
    &&& post.rooms == Seq::<Seq<char>>::empty()
    &&& post.handles == pre.handles
    &&& post.next_id == (if q.is_async {
        id_after(pre.next_id)
    } else {
        pre.next_id
    })
    &&& res matches Ok(
        Reply::Respond(ResponseMessage::Dispose { async_id }, FfiTask::CloseRooms { rooms, blocking }),
    )
    &&& room_ids(rooms@) == pre.rooms
    &&& blocking == !q.is_async
    &&& async_id == (if q.is_async {
        Some(pre.next_id)
    } else {
        None
    })
}

/// `Connect`: takes an id to report the connection under and hands the
/// request over to be carried out.
pub open spec fn connect_outcome(
    pre: ServerView,
    q: ConnectRequest,
    post: ServerView,
    res: Result<Reply, FfiError>,
) -> bool {
    &&& post == pre.allocated()
    &&& res == Ok::<Reply, FfiError>(
        Reply::Respond(
            ResponseMessage::Connect { async_id: pre.next_id },
            FfiTask::Connect { async_id: pre.next_id, request: q },
        ),
    )
}

/// `PublishTrack`: takes an id to report the publication under and hands
/// the request over; it is checked when carried out (see `publish_error`).
pub open spec fn publish_track_outcome(
    pre: ServerView,
    q: PublishTrackRequest,
    post: ServerView,
    res: Result<Reply, FfiError>,
) -> bool {
    &&& post == pre.allocated()
    &&& res == Ok::<Reply, FfiError>(
        Reply::Respond(
            ResponseMessage::PublishTrack { async_id: pre.next_id },
            FfiTask::PublishTrack { async_id: pre.next_id, request: q },
        ),
    )
}

/// `h` is a source that can feed a track of kind `kind`.
pub open spec fn feeds(kind: TrackKind, h: FfiHandle) -> bool {
    match kind {
        TrackKind::Video => h is VideoSource,
        TrackKind::Audio => h is AudioSource,
    }
}

/// The message of the error for a handle that is no source of `kind`.
pub open spec fn not_a_source_message(kind: TrackKind) -> Seq<char> {
    match kind {
        TrackKind::Video => "handle is not a video source"@,
        TrackKind::Audio => "handle is not an audio source"@,
    }
}

/// What creating a track of `kind` named `name` from `source_handle` does.
pub open spec fn create_track_outcome(
    pre: ServerView,
    kind: TrackKind,
    name: String,
    source_handle: Option<FfiHandleId>,
    post: ServerView,
    res: Result<Reply, FfiError>,
) -> bool {
    match source_handle {
        None => post == pre && fails_with(res, "source_handle is empty"@),
        Some(h) => if !pre.handles.contains_key(h.id) {
            post == pre && fails_with(res, "source not found"@)
        } else if !feeds(kind, pre.handles[h.id]) {
            post == pre && fails_with(res, not_a_source_message(kind))
        } else {
            let id = pre.next_id;
            let record = TrackRecord { name: name, source: h.id };
            let info = TrackInfo { handle: FfiHandleId { id }, name: name, kind };
            match kind {
                TrackKind::Video => {
                    &&& post == pre.stored(FfiHandle::LocalVideoTrack(record))
                    &&& res == Ok::<Reply, FfiError>(
                        Reply::Respond(
                            ResponseMessage::CreateVideoTrack { track: info },
                            FfiTask::CreateVideoTrack { handle: id, source: h.id, name: name },
                        ),
                    )
                },
                TrackKind::Audio => {
                    &&& post == pre.stored(FfiHandle::LocalAudioTrack(record))
                    &&& res == Ok::<Reply, FfiError>(
                        Reply::Respond(
                            ResponseMessage::CreateAudioTrack { track: info },
                            FfiTask::CreateAudioTrack { handle: id, source: h.id, name: name },
                        ),
                    )
                },
            }
        },
    }
}

/// `AllocVideoBuffer`: stores a fresh I420 buffer; other layouts are refused.
pub open spec fn alloc_video_buffer_outcome(
    pre: ServerView,
    q: AllocVideoBufferRequest,
    post: ServerView,
    res: Result<Reply, FfiError>,
) -> bool {
    if q.buffer_type != VideoFrameBufferType::I420 {
        post == pre && fails_with(res, "frame type is not supported"@)
    } else {
        let b = i420_buffer(q.width, q.height);
        &&& post == pre.stored(FfiHandle::VideoFrameBuffer(b))
        &&& res == Ok::<Reply, FfiError>(
            Reply::Respond(
                ResponseMessage::AllocVideoBuffer { buffer: buffer_info(pre.next_id, b) },
                FfiTask::AllocateVideoBuffer { handle: pre.next_id },
            ),
        )
    }
}

/// `NewVideoSource`: stores a new source (see `FfiVideoSource::setup`).
pub open spec fn new_video_source_outcome(
    pre: ServerView,
    q: NewVideoSourceRequest,
    post: ServerView,
    res: Result<Reply, FfiError>,
) -> bool {
    &&& post == pre.stored(FfiHandle::VideoSource(source_for(pre.next_id, q)))
    &&& res == Ok::<Reply, FfiError>(
        Reply::Respond(
            ResponseMessage::NewVideoSource {
                source: VideoSourceInfo {
                    handle: FfiHandleId { id: pre.next_id },
                    source_type: q.source_type,
                },
            },
            FfiTask::Nothing,
        ),
    )
}

/// A capture request names a source handle only if that handle exists.
pub open spec fn capture_admissible(pre: ServerView, q: CaptureVideoFrameRequest) -> bool {
    q.source_handle matches Some(h) ==> pre.handles.contains_key(h.id)
}

/// `CaptureVideoFrame`: checks the source and the frame; the frame is then
/// pushed into the source.
pub open spec fn capture_video_frame_outcome(
    pre: ServerView,
    q: CaptureVideoFrameRequest,
    post: ServerView,
    res: Result<Reply, FfiError>,
) -> bool {
    &&& post == pre
    &&& match q.source_handle {
        None => fails_with(res, "source_handle is empty"@),
        Some(h) => if !(pre.handles[h.id] is VideoSource) {
            fails_with(res, "handle is not a video source"@)
        } else {
            match capture_error(pre.handles, q) {
                Some(msg) => fails_with(res, msg),
                None => res == Ok::<Reply, FfiError>(
                    Reply::Respond(
                        ResponseMessage::CaptureVideoFrame,
                        FfiTask::PushVideoFrame { source: h.id, frame: captured_frame(q) },
                    ),
                ),
            }
        },
    }
}

/// The format of a caller's image can be converted into I420.
pub open spec fn argb_convertible(f: VideoFormatType) -> bool {
    f == VideoFormatType::FormatArgb || f == VideoFormatType::FormatAbgr
}

/// Mirroring `h` rows gives a height that a signed 32-bit integer holds.
pub open spec fn height_negatable(h: u32, flip_y: bool) -> bool {
    flip_y ==> (h as i32) != i32::MIN
}

/// A `ToArgb` request negates its height only once its buffer is found to
/// be a video buffer; only then must the height be negatable.
pub open spec fn to_argb_admissible(pre: ServerView, q: ToArgbRequest) -> bool {
    (q.buffer matches Some(h) && pre.handles.contains_key(h.id)
        && pre.handles[h.id] is VideoFrameBuffer) ==> height_negatable(q.dst_height, q.flip_y)
}

/// What answering `q` with a new I420 buffer `b` and task `task` looks like.
pub open spec fn to_i420_stores(
    pre: ServerView,
    b: VideoFrameBuffer,
    task: FfiTask,
    post: ServerView,
    res: Result<Reply, FfiError>,
) -> bool {
    &&& post == pre.stored(FfiHandle::VideoFrameBuffer(b))
    &&& res == Ok::<Reply, FfiError>(
        Reply::Respond(ResponseMessage::ToI420 { buffer: buffer_info(pre.next_id, b) }, task),
    )
}

/// `ToI420`: stores a fresh I420 buffer of the input's size, to be filled by
/// converting the caller's image (ARGB or ABGR only) or a held buffer.
pub open spec fn to_i420_outcome(
    pre: ServerView,
    q: ToI420Request,
    post: ServerView,
    res: Result<Reply, FfiError>,
) -> bool {
    match q.from {
        None => post == pre && fails_with(res, "from is empty"@),
        Some(ToI420From::Argb(a)) => if !argb_convertible(a.format) {
            post == pre && fails_with(res, "the format is not supported"@)
        } else {
            to_i420_stores(
                pre,
                i420_buffer(a.width, a.height),
                FfiTask::ConvertArgbToI420 {
                    target: pre.next_id,
                    image: a,
                    width: a.width as i32,
                    height: signed_height(a.height, q.flip_y) as i32,
                },
                post,
                res,
            )
        },
        Some(ToI420From::Buffer(h)) => if !pre.handles.contains_key(h.id) {
            post == pre && fails_with(res, "handle not found"@)
        } else if !(pre.handles[h.id] is VideoFrameBuffer) {
            post == pre && fails_with(res, "handle is not a video buffer"@)
        } else {
            let src = pre.handles[h.id]->VideoFrameBuffer_0;
            to_i420_stores(
                pre,
                i420_buffer(src.width, src.height),
                FfiTask::ConvertBufferToI420 { target: pre.next_id, source: h.id },
                post,
                res,
            )
        },
    }
}

/// `ToArgb`: checks the buffer; it is then converted into the caller's image.
pub open spec fn to_argb_outcome(
    pre: ServerView,
    q: ToArgbRequest,
    post: ServerView,
    res: Result<Reply, FfiError>,
) -> bool {
    &&& post == pre
    &&& match q.buffer {
        None => fails_with(res, "buffer is empty"@),
        Some(h) => if !pre.handles.contains_key(h.id) {
            fails_with(res, "handle is not found"@)
        } else if !(pre.handles[h.id] is VideoFrameBuffer) {
            fails_with(res, "handle is not a video buffer"@)
        } else {
            res == Ok::<Reply, FfiError>(
                Reply::Respond(
                    ResponseMessage::ToArgb,
                    FfiTask::ConvertToArgb {
                        buffer: h.id,
                        dst_ptr: q.dst_ptr,
                        format: q.dst_format,
                        stride: q.dst_stride,
                        width: q.dst_width as i32,
                        height: signed_height(q.dst_height, q.flip_y) as i32,
                    },
                ),
            )
        },
    }
}

/// `AllocAudioBuffer`: stores a new audio frame of the requested shape.
pub open spec fn alloc_audio_buffer_outcome(
    pre: ServerView,
    q: AllocAudioBufferRequest,
    post: ServerView,
    res: Result<Reply, FfiError>,
) -> bool {
    let f = AudioFrame {
        sample_rate: q.sample_rate,
        num_channels: q.num_channels,
        samples_per_channel: q.samples_per_channel,
    };
    &&& post == pre.stored(FfiHandle::AudioFrame(f))
    &&& res == Ok::<Reply, FfiError>(
        Reply::Respond(
            ResponseMessage::AllocAudioBuffer {
                buffer: AudioFrameBufferInfo {
                    handle: FfiHandleId { id: pre.next_id },
                    sample_rate: q.sample_rate,
                    num_channels: q.num_channels,
                    samples_per_channel: q.samples_per_channel,
                },
            },
            FfiTask::AllocateAudioFrame { handle: pre.next_id },
        ),
    )
}

/// `CaptureAudioFrame`: checks the source, then forwards the frame to it.
pub open spec fn capture_audio_frame_outcome(
    pre: ServerView,
    q: CaptureAudioFrameRequest,
    post: ServerView,
    res: Result<Reply, FfiError>,
) -> bool {
    &&& post == pre
    &&& match q.source_handle {
        None => fails_with(res, "handle is empty"@),
        Some(h) => if !pre.handles.contains_key(h.id) {
            fails_with(res, "handle not found"@)
        } else if !(pre.handles[h.id] is AudioSource) {
            fails_with(res, "handle is not a video source"@)
        } else {
            res == Ok::<Reply, FfiError>(
                Reply::Forward(Forwarded::CaptureAudioFrame { source: h.id, request: q }),
            )
        },
    }
}

/// The requests whose inputs the server accepts without panicking.
pub open spec fn request_admissible(pre: ServerView, request: FfiRequest) -> bool {
    match request.message {
        Some(RequestMessage::CaptureVideoFrame(q)) => capture_admissible(pre, q),
        Some(RequestMessage::ToI420(q)) => match q.from {
            Some(ToI420From::Argb(a)) => argb_convertible(a.format) ==> height_negatable(
                a.height,
                q.flip_y,
            ),
            _ => true,
        },
        Some(RequestMessage::ToArgb(q)) => to_argb_admissible(pre, q),
        _ => true,
    }
}

/// What answering `request` does to the server and what it answers.
pub open spec fn request_outcome(
    pre: ServerView,
    request: FfiRequest,
    post: ServerView,
    res: Result<Reply, FfiError>,
) -> bool {
    match request.message {
        None => post == pre && fails_with(res, "message is empty"@),
        Some(m) => match m {
            RequestMessage::Initialize(q) => initialize_outcome(pre, q, post, res),
            RequestMessage::Dispose(q) => dispose_outcome(pre, q, post, res),
            RequestMessage::Connect(q) => connect_outcome(pre, q, post, res),
            RequestMessage::Disconnect(_) => post == pre && answers(
                res,
                ResponseMessage::Disconnect,
            ),
            RequestMessage::PublishTrack(q) => publish_track_outcome(pre, q, post, res),
            RequestMessage::UnpublishTrack(_) => post == pre && answers(
                res,
                ResponseMessage::UnpublishTrack,
            ),
            RequestMessage::CreateVideoTrack(q) => create_track_outcome(
                pre,
                TrackKind::Video,
                q.name,
                q.source_handle,
                post,
                res,
            ),
            RequestMessage::CreateAudioTrack(q) => create_track_outcome(
                pre,
                TrackKind::Audio,
                q.name,
                q.source_handle,
                post,
                res,
            ),
            RequestMessage::AllocVideoBuffer(q) => alloc_video_buffer_outcome(pre, q, post, res),
            RequestMessage::NewVideoStream(q) => post == pre && res == Ok::<Reply, FfiError>(
                Reply::Forward(Forwarded::NewVideoStream(q)),
            ),
            RequestMessage::NewVideoSource(q) => new_video_source_outcome(pre, q, post, res),
            RequestMessage::CaptureVideoFrame(q) => capture_video_frame_outcome(pre, q, post, res),
            RequestMessage::ToI420(q) => to_i420_outcome(pre, q, post, res),
            RequestMessage::ToArgb(q) => to_argb_outcome(pre, q, post, res),
            RequestMessage::AllocAudioBuffer(q) => alloc_audio_buffer_outcome(pre, q, post, res),
            RequestMessage::NewAudioStream(q) => post == pre && res == Ok::<Reply, FfiError>(
                Reply::Forward(Forwarded::NewAudioStream(q)),
            ),
            RequestMessage::NewAudioSource(q) => post == pre && res == Ok::<Reply, FfiError>(
                Reply::Forward(Forwarded::NewAudioSource(q)),
            ),
            RequestMessage::CaptureAudioFrame(q) => capture_audio_frame_outcome(pre, q, post, res),
        },
    }
}

/// The error message with which publishing `q` fails, if it fails.
pub open spec fn publish_error(pre: ServerView, q: PublishTrackRequest) -> Option<Seq<char>> {
    if !pre.rooms.contains(q.room_sid@) {
        Some("room not found"@)
    } else {
        match q.track_handle {
            None => Some("track_handle is empty"@),
            Some(h) => if !pre.handles.contains_key(h.id) {
                Some("track not found"@)
            } else if !(pre.handles[h.id] is LocalTrack) {
                Some("track is not a LocalTrack"@)
            } else {
                None
            },
        }
    }
}

impl FfiServer {
    /// A server with no rooms, no handles and no configuration; the first id
    /// it hands out is 1.
    pub fn new() -> (s: FfiServer)
        ensures
            s@.rooms == Seq::<Seq<char>>::empty(),
            s@.handles == Map::<u64, FfiHandle>::empty(),
            s@.next_id == 1,
            s@.config is None,
            s@.wf(),
    {
        let s = FfiServer {
            rooms: Vec::new(),
            ffi_handles: HashMap::new(),
            next_id: 1,
            config: None,
        };
        assert(room_ids(s.rooms@) =~= Seq::<Seq<char>>::empty());
        s
    }

    /// Takes the next id.
    pub fn next_id(&mut self) -> (id: u64)
        ensures
            id == old(self)@.next_id,
            final(self)@ == old(self)@.allocated(),
    {
        let id = self.next_id;
        self.next_id = if self.next_id == u64::MAX {
            0
        } else {
            self.next_id + 1
        };
        id
    }

    /// The table of handles.
    pub fn ffi_handles(&self) -> (h: &HashMap<u64, FfiHandle>)
        ensures
            h@ == self@.handles,
    {
        &self.ffi_handles
    }

    /// What handle `id` refers to, if anything.
    pub fn handle(&self, id: u64) -> (h: Option<&FfiHandle>)
        ensures
            match h {
                Some(v) => self@.handles.contains_key(id) && *v == self@.handles[id],
                None => !self@.handles.contains_key(id),
            },
    {
        self.ffi_handles.get(&id)
    }

    /// Registers `handle` under `id`, replacing what `id` referred to.
    pub fn insert_handle(&mut self, id: u64, handle: FfiHandle)
        ensures
            final(self)@ == (ServerView { handles: old(self)@.handles.insert(id, handle), ..old(self)@ }),
    {
        self.ffi_handles.insert(id, handle);
    }

    /// Takes the next id and registers `handle` under it.
    pub fn store_handle(&mut self, handle: FfiHandle) -> (id: u64)
        ensures
            id == old(self)@.next_id,
            final(self)@ == old(self)@.stored(handle),
    {
        let id = self.next_id();
        self.insert_handle(id, handle);
        id
    }

    /// Whether the server is connected to the room `sid`.
    pub fn has_room(&self, sid: &String) -> (r: bool)
        ensures
            r == self@.rooms.contains(sid@),
    {
        let n = self.rooms.len();
        let mut i: usize = 0;
        while i < n
            invariant
                n == self.rooms@.len(),
                i <= n,
                forall|j: int| 0 <= j < i ==> self.rooms@[j]@ != sid@,
            decreases n - i,
        {
            if self.rooms[i] == *sid {
                assert(room_ids(self.rooms@)[i as int] == sid@);
                return true;
            }
            i = i + 1;
        }
        assert forall|j: int| 0 <= j < room_ids(self.rooms@).len() implies room_ids(
            self.rooms@,
        )[j] != sid@ by {}
        false
    }

    /// Records a connection to the room `sid` (once).
    pub fn insert_room(&mut self, sid: String)
        ensures
            old(self)@.wf() ==> final(self)@.wf(),
            final(self)@ == (ServerView {
                rooms: if old(self)@.rooms.contains(sid@) {
                    old(self)@.rooms
                } else {
                    old(self)@.rooms.push(sid@)
                },
                ..old(self)@
            }),
    {
        if !self.has_room(&sid) {
            let ghost before = self.rooms@;
            self.rooms.push(sid);
            assert(room_ids(self.rooms@) =~= room_ids(before).push(self.rooms@.last()@));
        }
    }

    /// Forgets every room and returns them, to be closed.
    pub fn close(&mut self) -> (rooms: Vec<String>)
        ensures
            old(self)@.wf() ==> final(self)@.wf(),
            room_ids(rooms@) == old(self)@.rooms,
            final(self)@ == (ServerView { rooms: Seq::<Seq<char>>::empty(), ..old(self)@ }),
    {
        let mut rooms: Vec<String> = Vec::new();
        std::mem::swap(&mut rooms, &mut self.rooms);
        assert(room_ids(self.rooms@) =~= Seq::<Seq<char>>::empty());
        rooms
    }

    /// Where to deliver an event: fails unless the server is initialized.
    pub fn send_event(&self) -> (res: Result<FfiConfig, FfiError>)
        ensures
            match self@.config {
                Some(c) => res == Ok::<FfiConfig, FfiError>(c),
                None => res matches Err(FfiError::NotConfigured),
            },
    {
        match self.config {
            Some(c) => Ok(c),
            None => Err(FfiError::NotConfigured),
        }
    }
}


impl Default for FfiServer {
    /// A server with no rooms, no handles and no configuration; the first id
    /// it hands out is 1.
    fn default() -> (s: FfiServer)
        ensures
            s@.rooms == Seq::<Seq<char>>::empty(),
            s@.handles == Map::<u64, FfiHandle>::empty(),
            s@.next_id == 1,
            s@.config is None,
    {
        FfiServer::new()
    }
}

/// A fresh I420 buffer of `w` by `h` pixels.
fn new_i420_buffer(w: u32, h: u32) -> (b: VideoFrameBuffer)
    ensures
        b == i420_buffer(w, h),
{
    let half = w / 2 + w % 2;
    VideoFrameBuffer {
        buffer_type: VideoFrameBufferType::I420,
        width: w,
        height: h,
        stride_y: w,
        stride_u: half,
        stride_v: half,
    }
}

/// The description of buffer `b` held under `id`.
fn describe_buffer(id: u64, b: VideoFrameBuffer) -> (info: VideoFrameBufferInfo)
    ensures
        info == buffer_info(id, b),
{
    VideoFrameBufferInfo {
        handle: FfiHandleId { id },
        buffer_type: b.buffer_type,
        width: b.width,
        height: b.height,
        stride_y: b.stride_y,
        stride_u: b.stride_u,
        stride_v: b.stride_v,
    }
}

/// Height as handed to the pixel routines: negative to mirror vertically.
fn mirrored_height(h: u32, flip_y: bool) -> (r: i32)
    requires
        height_negatable(h, flip_y),
    ensures
        r == signed_height(h, flip_y),
{
    let height = h as i32;
    if flip_y {
        -height
    } else {
        height
    }
}

impl FfiServer {
    /// Answers `Initialize`; `handle_request` gives back exactly this result.
    pub fn on_initialize(&mut self, init: InitializeRequest) -> (res: Result<Reply, FfiError>)
        ensures
            initialize_outcome(old(self)@, init, final(self)@, res),
    {
        if self.config.is_some() {
            return Err(FfiError::AlreadyInitialized);
        }
        self.config = Some(FfiConfig { callback_fn: init.event_callback_ptr });
        Ok(Reply::Respond(ResponseMessage::Initialize, FfiTask::Nothing))
    }

    /// Answers `Dispose`; `handle_request` gives back exactly this result.
    pub fn on_dispose(&mut self, dispose: DisposeRequest) -> (res: Result<Reply, FfiError>)
        ensures
            dispose_outcome(old(self)@, dispose, final(self)@, res),
    {
        self.config = None;
        let rooms = self.close();
        if !dispose.is_async {
            Ok(
                Reply::Respond(
                    ResponseMessage::Dispose { async_id: None },
                    FfiTask::CloseRooms { rooms, blocking: true },
                ),
            )
        } else {
            let async_id = self.next_id();
            Ok(
                Reply::Respond(
                    ResponseMessage::Dispose { async_id: Some(async_id) },
                    FfiTask::CloseRooms { rooms, blocking: false },
                ),
            )
        }
    }

    /// Answers `Connect`; `handle_request` gives back exactly this result.
    pub fn on_connect(&mut self, connect: ConnectRequest) -> (res: Result<Reply, FfiError>)
        ensures
            connect_outcome(old(self)@, connect, final(self)@, res),
    {
        let async_id = self.next_id();
        Ok(
            Reply::Respond(
                ResponseMessage::Connect { async_id },
                FfiTask::Connect { async_id, request: connect },
            ),
        )
    }

    /// Answers `PublishTrack`; `handle_request` gives back exactly this result.
    pub fn on_publish_track(&mut self, publish: PublishTrackRequest) -> (res: Result<Reply, FfiError>)
        ensures
            publish_track_outcome(old(self)@, publish, final(self)@, res),
    {
        let async_id = self.next_id();
        Ok(
            Reply::Respond(
                ResponseMessage::PublishTrack { async_id },
                FfiTask::PublishTrack { async_id, request: publish },
            ),
        )
    }

    /// Checks a publication against the server's rooms and handles; gives
    /// the handle of the track to publish.
    pub fn resolve_publish(&self, publish: &PublishTrackRequest) -> (res: Result<u64, FfiError>)
        ensures
            match publish_error(self@, *publish) {
                Some(msg) => fails_with(res, msg),
                None => res == Ok::<u64, FfiError>(publish.track_handle.unwrap().id),
            },
    {
        if !self.has_room(&publish.room_sid) {
            return Err(invalid_request("room not found"));
        }
        let id = match publish.track_handle {
            None => {
                return Err(invalid_request("track_handle is empty"));
            },
            Some(h) => h.id,
        };
        match self.handle(id) {
            None => Err(invalid_request("track not found")),
            Some(FfiHandle::LocalTrack(_)) => Ok(id),
            Some(_) => Err(invalid_request("track is not a LocalTrack")),
        }
    }

    /// Answers `CreateVideoTrack`; `handle_request` gives back exactly this result.
    pub fn on_create_video_track(&mut self, create: CreateVideoTrackRequest) -> (res: Result<
        Reply,
        FfiError,
    >)
        ensures
            create_track_outcome(
                old(self)@,
                TrackKind::Video,
                create.name,
                create.source_handle,
                final(self)@,
                res,
            ),
    {
        let source = match create.source_handle {
            None => {
                return Err(invalid_request("source_handle is empty"));
            },
            Some(h) => h.id,
        };
        match self.handle(source) {
            None => {
                return Err(invalid_request("source not found"));
            },
            Some(FfiHandle::VideoSource(_)) => {},
            Some(_) => {
                return Err(invalid_request("handle is not a video source"));
            },
        }
        let name = create.name;
        let record = TrackRecord { name: name.clone(), source };
        let id = self.store_handle(FfiHandle::LocalVideoTrack(record));
        let task_name = name.clone();
        Ok(
            Reply::Respond(
                ResponseMessage::CreateVideoTrack {
                    track: TrackInfo { handle: FfiHandleId { id }, name, kind: TrackKind::Video },
                },
                FfiTask::CreateVideoTrack { handle: id, source, name: task_name },
            ),
        )
    }

    /// Answers `CreateAudioTrack`; `handle_request` gives back exactly this result.
    pub fn on_create_audio_track(&mut self, create: CreateAudioTrackRequest) -> (res: Result<
        Reply,
        FfiError,
    >)
        ensures
            create_track_outcome(
                old(self)@,
                TrackKind::Audio,
                create.name,
                create.source_handle,
                final(self)@,
                res,
            ),
    {
        let source = match create.source_handle {
            None => {
                return Err(invalid_request("source_handle is empty"));
            },
            Some(h) => h.id,
        };
        match self.handle(source) {
            None => {
                return Err(invalid_request("source not found"));
            },
            Some(FfiHandle::AudioSource) => {},
            Some(_) => {
                return Err(invalid_request("handle is not an audio source"));
            },
        }
        let name = create.name;
        let record = TrackRecord { name: name.clone(), source };
        let id = self.store_handle(FfiHandle::LocalAudioTrack(record));
        let task_name = name.clone();
        Ok(
            Reply::Respond(
                ResponseMessage::CreateAudioTrack {
                    track: TrackInfo { handle: FfiHandleId { id }, name, kind: TrackKind::Audio },
                },
                FfiTask::CreateAudioTrack { handle: id, source, name: task_name },
            ),
        )
    }

    /// Answers `AllocVideoBuffer`; `handle_request` gives back exactly this result.
    pub fn on_alloc_video_buffer(&mut self, alloc: AllocVideoBufferRequest) -> (res: Result<
        Reply,
        FfiError,
    >)
        ensures
            alloc_video_buffer_outcome(old(self)@, alloc, final(self)@, res),
    {
        if alloc.buffer_type != VideoFrameBufferType::I420 {
            return Err(invalid_request("frame type is not supported"));
        }
        let buffer = new_i420_buffer(alloc.width, alloc.height);
        let id = self.store_handle(FfiHandle::VideoFrameBuffer(buffer));
        Ok(
            Reply::Respond(
                ResponseMessage::AllocVideoBuffer { buffer: describe_buffer(id, buffer) },
                FfiTask::AllocateVideoBuffer { handle: id },
            ),
        )
    }

    /// Answers `NewVideoSource`; `handle_request` gives back exactly this result.
    pub fn on_new_video_source(&mut self, new_source: NewVideoSourceRequest) -> (res: Result<
        Reply,
        FfiError,
    >)
        ensures
            new_video_source_outcome(old(self)@, new_source, final(self)@, res),
    {
        match FfiVideoSource::setup(self, new_source) {
            Ok(source) => Ok(
                Reply::Respond(ResponseMessage::NewVideoSource { source }, FfiTask::Nothing),
            ),
            Err(e) => Err(e),
        }
    }

    /// Answers `CaptureVideoFrame`; `handle_request` gives back exactly this result.
    pub fn on_capture_video_frame(&mut self, push: CaptureVideoFrameRequest) -> (res: Result<
        Reply,
        FfiError,
    >)
        requires
            capture_admissible(old(self)@, push),
        ensures
            capture_video_frame_outcome(old(self)@, push, final(self)@, res),
    {
        let id = match push.source_handle {
            None => {
                return Err(invalid_request("source_handle is empty"));
            },
            Some(h) => h.id,
        };
        let frame = match self.handle(id) {
            Some(FfiHandle::VideoSource(video_source)) => {
                match video_source.capture_frame(self, push) {
                    Ok(frame) => frame,
                    Err(e) => {
                        return Err(e);
                    },
                }
            },
            _ => {
                return Err(invalid_request("handle is not a video source"));
            },
        };
        Ok(
            Reply::Respond(
                ResponseMessage::CaptureVideoFrame,
                FfiTask::PushVideoFrame { source: id, frame },
            ),
        )
    }

    /// Answers `ToI420`; `handle_request` gives back exactly this result.
    pub fn on_to_i420(&mut self, to_i420: ToI420Request) -> (res: Result<Reply, FfiError>)
        requires
            match to_i420.from {
                Some(ToI420From::Argb(a)) => argb_convertible(a.format) ==> height_negatable(
                    a.height,
                    to_i420.flip_y,
                ),
                _ => true,
            },
        ensures
            to_i420_outcome(old(self)@, to_i420, final(self)@, res),
    {
        match to_i420.from {
            None => Err(invalid_request("from is empty")),
            Some(ToI420From::Argb(argb)) => {
                if !(argb.format == VideoFormatType::FormatArgb || argb.format
                    == VideoFormatType::FormatAbgr) {
                    return Err(invalid_request("the format is not supported"));
                }
                let width = argb.width as i32;
                let height = mirrored_height(argb.height, to_i420.flip_y);
                let buffer = new_i420_buffer(argb.width, argb.height);
                let id = self.store_handle(FfiHandle::VideoFrameBuffer(buffer));
                Ok(
                    Reply::Respond(
                        ResponseMessage::ToI420 { buffer: describe_buffer(id, buffer) },
                        FfiTask::ConvertArgbToI420 { target: id, image: argb, width, height },
                    ),
                )
            },
            Some(ToI420From::Buffer(handle)) => {
                let (w, h) = match self.handle(handle.id) {
                    None => {
                        return Err(invalid_request("handle not found"));
                    },
                    Some(FfiHandle::VideoFrameBuffer(src)) => (src.width, src.height),
                    Some(_) => {
                        return Err(invalid_request("handle is not a video buffer"));
                    },
                };
                let buffer = new_i420_buffer(w, h);
                let id = self.store_handle(FfiHandle::VideoFrameBuffer(buffer));
                Ok(
                    Reply::Respond(
                        ResponseMessage::ToI420 { buffer: describe_buffer(id, buffer) },
                        FfiTask::ConvertBufferToI420 { target: id, source: handle.id },
                    ),
                )
            },
        }
    }

    /// Answers `ToArgb`; `handle_request` gives back exactly this result.
    pub fn on_to_argb(&mut self, to_argb: ToArgbRequest) -> (res: Result<Reply, FfiError>)
        requires
            to_argb_admissible(old(self)@, to_argb),
        ensures
            to_argb_outcome(old(self)@, to_argb, final(self)@, res),
    {
        let id = match to_argb.buffer {
            None => {
                return Err(invalid_request("buffer is empty"));
            },
            Some(h) => h.id,
        };
        match self.handle(id) {
            None => {
                return Err(invalid_request("handle is not found"));
            },
            Some(FfiHandle::VideoFrameBuffer(_)) => {},
            Some(_) => {
                return Err(invalid_request("handle is not a video buffer"));
            },
        }
        let width = to_argb.dst_width as i32;
        let height = mirrored_height(to_argb.dst_height, to_argb.flip_y);
        Ok(
            Reply::Respond(
                ResponseMessage::ToArgb,
                FfiTask::ConvertToArgb {
                    buffer: id,
                    dst_ptr: to_argb.dst_ptr,
                    format: to_argb.dst_format,
                    stride: to_argb.dst_stride,
                    width,
                    height,
                },
            ),
        )
    }

    /// Answers `AllocAudioBuffer`; `handle_request` gives back exactly this result.
    pub fn on_alloc_audio_buffer(&mut self, alloc: AllocAudioBufferRequest) -> (res: Result<
        Reply,
        FfiError,
    >)
        ensures
            alloc_audio_buffer_outcome(old(self)@, alloc, final(self)@, res),
    {
        let frame = AudioFrame {
            sample_rate: alloc.sample_rate,
            num_channels: alloc.num_channels,
            samples_per_channel: alloc.samples_per_channel,
        };
        let id = self.store_handle(FfiHandle::AudioFrame(frame));
        Ok(
            Reply::Respond(
                ResponseMessage::AllocAudioBuffer {
                    buffer: AudioFrameBufferInfo {
                        handle: FfiHandleId { id },
                        sample_rate: alloc.sample_rate,
                        num_channels: alloc.num_channels,
                        samples_per_channel: alloc.samples_per_channel,
                    },
                },
                FfiTask::AllocateAudioFrame { handle: id },
            ),
        )
    }

    /// Answers `CaptureAudioFrame`; `handle_request` gives back exactly this result.
    pub fn on_capture_audio_frame(&mut self, push: CaptureAudioFrameRequest) -> (res: Result<
        Reply,
        FfiError,
    >)
        ensures
            capture_audio_frame_outcome(old(self)@, push, final(self)@, res),
    {
        let id = match push.source_handle {
            None => {
                return Err(invalid_request("handle is empty"));
            },
            Some(h) => h.id,
        };
        match self.handle(id) {
            None => Err(invalid_request("handle not found")),
            Some(FfiHandle::AudioSource) => Ok(
                Reply::Forward(Forwarded::CaptureAudioFrame { source: id, request: push }),
            ),
            Some(_) => Err(invalid_request("handle is not a video source")),
        }
    }

    /// Whether `request` is one the server answers without panicking.
    pub fn check_request(&self, request: &FfiRequest) -> (ok: bool)
        ensures
            ok == request_admissible(self@, *request),
    {
        match &request.message {
            Some(RequestMessage::CaptureVideoFrame(q)) => match q.source_handle {
                Some(h) => self.handle(h.id).is_some(),
                None => true,
            },
            Some(RequestMessage::ToI420(q)) => match q.from {
                Some(ToI420From::Argb(a)) => !(a.format == VideoFormatType::FormatArgb
                    || a.format == VideoFormatType::FormatAbgr) || !q.flip_y || (a.height as i32)
                    != i32::MIN,
                _ => true,
            },
            Some(RequestMessage::ToArgb(q)) => match q.buffer {
                Some(h) => match self.handle(h.id) {
                    Some(FfiHandle::VideoFrameBuffer(_)) => !q.flip_y || (q.dst_height as i32)
                        != i32::MIN,
                    _ => true,
                },
                None => true,
            },
            _ => true,
        }
    }

    /// Answers a request.
    pub fn handle_request(&mut self, request: FfiRequest) -> (res: Result<Reply, FfiError>)
        requires
            request_admissible(old(self)@, request),
        ensures
            request_outcome(old(self)@, request, final(self)@, res),
    {
        let message = match request.message {
            None => {
                return Err(invalid_request("message is empty"));
            },
            Some(m) => m,
        };
        match message {
            RequestMessage::Initialize(init) => self.on_initialize(init),
            RequestMessage::Dispose(dispose) => self.on_dispose(dispose),
            RequestMessage::Connect(connect) => self.on_connect(connect),
            RequestMessage::Disconnect(_) => Ok(
                Reply::Respond(ResponseMessage::Disconnect, FfiTask::Nothing),
            ),
            RequestMessage::PublishTrack(publish) => self.on_publish_track(publish),
            RequestMessage::UnpublishTrack(_) => Ok(
                Reply::Respond(ResponseMessage::UnpublishTrack, FfiTask::Nothing),
            ),
            RequestMessage::CreateVideoTrack(create) => self.on_create_video_track(create),
            RequestMessage::CreateAudioTrack(create) => self.on_create_audio_track(create),
            RequestMessage::AllocVideoBuffer(alloc) => self.on_alloc_video_buffer(alloc),
            RequestMessage::NewVideoStream(new_stream) => Ok(
                Reply::Forward(Forwarded::NewVideoStream(new_stream)),
            ),
            RequestMessage::NewVideoSource(new_source) => self.on_new_video_source(new_source),
            RequestMessage::CaptureVideoFrame(push) => self.on_capture_video_frame(push),
            RequestMessage::ToI420(to_i420) => self.on_to_i420(to_i420),
            RequestMessage::ToArgb(to_argb) => self.on_to_argb(to_argb),
            RequestMessage::AllocAudioBuffer(alloc) => self.on_alloc_audio_buffer(alloc),
            RequestMessage::NewAudioStream(new_stream) => Ok(
                Reply::Forward(Forwarded::NewAudioStream(new_stream)),
            ),
            RequestMessage::NewAudioSource(new_source) => Ok(
                Reply::Forward(Forwarded::NewAudioSource(new_source)),
            ),
            RequestMessage::CaptureAudioFrame(push) => self.on_capture_audio_frame(push),
        }
    }
}

/// Law: the id a server hands out next is not in use, is not 0, and
/// differs from the one after it (while ids are not exhausted). So a handle
/// stored under a new id never replaces another one.
pub proof fn new_ids_are_fresh(s: ServerView)
    requires
        s.wf(),
        s.next_id < u64::MAX,
    ensures
        !s.handles.contains_key(s.next_id),
        s.next_id != 0,
        s.allocated().next_id != s.next_id,
        s.allocated().next_id != 0,
        s.allocated().wf(),
{
}

/// Law: a handle stored under a new id reads back as stored, and every
/// other handle reads back as before.
pub proof fn stored_handle_reads_back(s: ServerView, h: FfiHandle, k: u64)
    ensures
        s.stored(h).handles.contains_key(s.next_id),
        s.stored(h).handles[s.next_id] == h,
        k != s.next_id ==> (s.stored(h).handles.contains_key(k) == s.handles.contains_key(k)
            && s.stored(h).handles[k] == s.handles[k]),
{
}

/// One step of the server takes an id: the next id grows by one, without
/// wrapping around.
pub open spec fn takes_id(pre: ServerView, post: ServerView) -> bool {
    pre.next_id < u64::MAX && post.next_id == pre.next_id + 1
}

/// Law: while ids are not exhausted, answering a request never lowers the
/// next id, and raises it by one exactly when the request takes an id.
pub proof fn requests_never_lower_next_id(
    pre: ServerView,
    request: FfiRequest,
    post: ServerView,
    res: Result<Reply, FfiError>,
)
    requires
        pre.next_id < u64::MAX,
        request_outcome(pre, request, post, res),
    ensures
        post.next_id == pre.next_id || takes_id(pre, post),
{
}

proof fn lemma_run_next_id_monotone(states: Seq<ServerView>, a: int, b: int)
    requires
        0 <= a <= b < states.len(),
        forall|k: int| 0 <= k < states.len() - 1 ==> #[trigger] states[k].next_id <= states[k + 1].next_id,
    ensures
        states[a].next_id <= states[b].next_id,
    decreases b - a,
{
    if a < b {
        lemma_run_next_id_monotone(states, a, b - 1);
        assert(states[b - 1].next_id <= states[b].next_id);
    }
}

/// Law: ids taken at two different steps of a run differ. In a run of
/// server states where no step lowers the next id (so it holds of every
/// request, `next_id` and `store_handle` while ids are not exhausted), an id
/// taken at step `i` is smaller than any id taken at a later step `j`; ids
/// taken from a well-formed server are never 0.
pub proof fn ids_of_a_run_differ(states: Seq<ServerView>, i: int, j: int)
    requires
        0 <= i < j < states.len() - 1,
        forall|k: int| 0 <= k < states.len() - 1 ==> #[trigger] states[k].next_id <= states[k + 1].next_id,
        takes_id(states[i], states[i + 1]),
    ensures
        states[i].next_id < states[j].next_id,
        states[0].wf() ==> states[i].next_id != 0 && states[j].next_id != 0,
{
    lemma_run_next_id_monotone(states, i + 1, j);
    lemma_run_next_id_monotone(states, 0, i);
}

/// The handle id that an answer to `NewVideoSource` reports, if it is one.
pub open spec fn new_source_id(res: Result<Reply, FfiError>) -> Option<u64> {
    match res {
        Ok(Reply::Respond(ResponseMessage::NewVideoSource { source }, _)) => Some(source.handle.id),
        _ => None,
    }
}

/// Law: video sources set up at two different steps of a run of answered
/// requests get different handles; each is stored under the id it reports,
/// and reports that id as its own. (While ids are not exhausted.)
pub proof fn video_sources_of_a_run_differ(
    states: Seq<ServerView>,
    requests: Seq<FfiRequest>,
    results: Seq<Result<Reply, FfiError>>,
    i: int,
    j: int,
)
    requires
        states.len() == requests.len() + 1,
        results.len() == requests.len(),
        forall|k: int|
            #![trigger results[k]]
            0 <= k < requests.len() ==> request_outcome(
                states[k],
                requests[k],
                states[k + 1],
                results[k],
            ),
        forall|k: int| 0 <= k < states.len() ==> #[trigger] states[k].next_id < u64::MAX,
        0 <= i < j < requests.len(),
        requests[i].message matches Some(RequestMessage::NewVideoSource(_)),
        requests[j].message matches Some(RequestMessage::NewVideoSource(_)),
    ensures
        new_source_id(results[i]) is Some,
        new_source_id(results[j]) is Some,
        new_source_id(results[i]) != new_source_id(results[j]),
        states[i + 1].handles.contains_key(new_source_id(results[i])->0),
        states[i + 1].handles[new_source_id(results[i])->0] matches FfiHandle::VideoSource(a)
            && a.handle_of() == new_source_id(results[i])->0,
        states[j + 1].handles.contains_key(new_source_id(results[j])->0),
        states[j + 1].handles[new_source_id(results[j])->0] matches FfiHandle::VideoSource(b)
            && b.handle_of() == new_source_id(results[j])->0,
{
    assert forall|k: int| 0 <= k < states.len() - 1 implies #[trigger] states[k].next_id
        <= states[k + 1].next_id by {
        assert(request_outcome(states[k], requests[k], states[k + 1], results[k]));
        assert(states[k].next_id < u64::MAX);
        requests_never_lower_next_id(states[k], requests[k], states[k + 1], results[k]);
    }
    assert(request_outcome(states[i], requests[i], states[i + 1], results[i]));
    assert(request_outcome(states[j], requests[j], states[j + 1], results[j]));
    assert(states[i].next_id < u64::MAX);
    assert(states[j].next_id < u64::MAX);
    let qi = requests[i].message->0->NewVideoSource_0;
    let qj = requests[j].message->0->NewVideoSource_0;
    crate::video_source::setup_source_reports_request(states[i].next_id, qi);
    crate::video_source::setup_source_reports_request(states[j].next_id, qj);
    assert(takes_id(states[i], states[i + 1]));
    ids_of_a_run_differ(states, i, j);
}

/// Law: `handle_request` answers each request exactly as the handler for its
/// kind does (the `on_*` function whose contract is that outcome): the same
/// result, the same error unchanged, the same state left behind. Requests of
/// the stream and audio-source kinds are forwarded unchanged, with the
/// server left as it was; `Disconnect` and `UnpublishTrack` are answered at
/// once with nothing changed.
pub proof fn requests_answer_as_their_handlers(
    pre: ServerView,
    request: FfiRequest,
    post: ServerView,
    res: Result<Reply, FfiError>,
)
    ensures
        match request.message {
            None => request_outcome(pre, request, post, res) == (post == pre && fails_with(
                res,
                "message is empty"@,
            )),
            Some(RequestMessage::Initialize(q)) => request_outcome(pre, request, post, res)
                == initialize_outcome(pre, q, post, res),
            Some(RequestMessage::Dispose(q)) => request_outcome(pre, request, post, res)
                == dispose_outcome(pre, q, post, res),
            Some(RequestMessage::Connect(q)) => request_outcome(pre, request, post, res)
                == connect_outcome(pre, q, post, res),
            Some(RequestMessage::PublishTrack(q)) => request_outcome(pre, request, post, res)
                == publish_track_outcome(pre, q, post, res),
            Some(RequestMessage::CreateVideoTrack(q)) => request_outcome(pre, request, post, res)
                == create_track_outcome(pre, TrackKind::Video, q.name, q.source_handle, post, res),
            Some(RequestMessage::CreateAudioTrack(q)) => request_outcome(pre, request, post, res)
                == create_track_outcome(pre, TrackKind::Audio, q.name, q.source_handle, post, res),
            Some(RequestMessage::AllocVideoBuffer(q)) => request_outcome(pre, request, post, res)
                == alloc_video_buffer_outcome(pre, q, post, res),
            Some(RequestMessage::NewVideoSource(q)) => request_outcome(pre, request, post, res)
                == new_video_source_outcome(pre, q, post, res),
            Some(RequestMessage::CaptureVideoFrame(q)) => request_outcome(pre, request, post, res)
                == capture_video_frame_outcome(pre, q, post, res),
            Some(RequestMessage::ToI420(q)) => request_outcome(pre, request, post, res)
                == to_i420_outcome(pre, q, post, res),
            Some(RequestMessage::ToArgb(q)) => request_outcome(pre, request, post, res)
                == to_argb_outcome(pre, q, post, res),
            Some(RequestMessage::AllocAudioBuffer(q)) => request_outcome(pre, request, post, res)
                == alloc_audio_buffer_outcome(pre, q, post, res),
            Some(RequestMessage::CaptureAudioFrame(q)) => request_outcome(pre, request, post, res)
                == capture_audio_frame_outcome(pre, q, post, res),
            Some(RequestMessage::Disconnect(_)) => request_outcome(pre, request, post, res) == (
            post == pre && res == Ok::<Reply, FfiError>(
                Reply::Respond(ResponseMessage::Disconnect, FfiTask::Nothing),
            )),
            Some(RequestMessage::UnpublishTrack(_)) => request_outcome(pre, request, post, res) == (
            post == pre && res == Ok::<Reply, FfiError>(
                Reply::Respond(ResponseMessage::UnpublishTrack, FfiTask::Nothing),
            )),
            Some(RequestMessage::NewVideoStream(q)) => request_outcome(pre, request, post, res) == (
            post == pre && res == Ok::<Reply, FfiError>(
                Reply::Forward(Forwarded::NewVideoStream(q)),
            )),
            Some(RequestMessage::NewAudioStream(q)) => request_outcome(pre, request, post, res) == (
            post == pre && res == Ok::<Reply, FfiError>(
                Reply::Forward(Forwarded::NewAudioStream(q)),
            )),
            Some(RequestMessage::NewAudioSource(q)) => request_outcome(pre, request, post, res) == (
            post == pre && res == Ok::<Reply, FfiError>(
                Reply::Forward(Forwarded::NewAudioSource(q)),
            )),
        },
{
}

/// Law: `ToI420` from a caller's image succeeds exactly for images in ARGB
/// or ABGR byte order. It then answers with a new I420 buffer of the image's
/// size under the next id, stores that buffer there, and hands out the
/// conversion of that very image into it, its height negated when the image
/// is to be mirrored. An image in any other format is
/// refused with "the format is not supported", and nothing changes.
pub proof fn caller_images_convert_in_argb_or_abgr(
    pre: ServerView,
    request: FfiRequest,
    post: ServerView,
    res: Result<Reply, FfiError>,
)
    requires
        request.message matches Some(RequestMessage::ToI420(q)) && q.from matches Some(
            ToI420From::Argb(_),
        ),
        request_outcome(pre, request, post, res),
    ensures
        ({
            let a = request.message->0->ToI420_0.from->0->Argb_0;
            if a.format == VideoFormatType::FormatArgb || a.format == VideoFormatType::FormatAbgr {
                &&& res matches Ok(
                    Reply::Respond(
                        ResponseMessage::ToI420 { buffer },
                        FfiTask::ConvertArgbToI420 { target, image, width, height },
                    ),
                ) && buffer.handle.id == pre.next_id && buffer.buffer_type
                    == VideoFrameBufferType::I420 && buffer.width == a.width && buffer.height
                    == a.height && target == pre.next_id && image == a && width == a.width as i32
                    && (a.height <= i32::MAX ==> height == (if request.message->0->ToI420_0.flip_y {
                    -(a.height as int)
                } else {
                    a.height as int
                }))
                &&& post.handles.contains_key(pre.next_id)
                &&& post.handles[pre.next_id] matches FfiHandle::VideoFrameBuffer(b)
                    && b.buffer_type == VideoFrameBufferType::I420 && b.width == a.width
                    && b.height == a.height
                &&& forall|k: u64|
                    k != pre.next_id ==> #[trigger] post.handles.contains_key(k)
                        == pre.handles.contains_key(k)
            } else {
                &&& post == pre
                &&& fails_with(res, "the format is not supported"@)
            }
        }),
{
}

/// Law: on a configured server, every request but `Dispose` keeps the
/// configuration, and `Initialize` fails with `AlreadyInitialized`.
pub proof fn requests_keep_configuration(
    pre: ServerView,
    request: FfiRequest,
    post: ServerView,
    res: Result<Reply, FfiError>,
)
    requires
        pre.config is Some,
        !(request.message matches Some(RequestMessage::Dispose(_))),
        request_outcome(pre, request, post, res),
    ensures
        post.config == pre.config,
        (request.message matches Some(RequestMessage::Initialize(_))) ==> (res matches Err(
            FfiError::AlreadyInitialized,
        )),
{
}

/// Law: a server stays initialized until it is disposed of. Along a run of
/// answered requests none of which is `Dispose`, the configuration set at
/// the start stays (events keep going to the same callback), and every
/// `Initialize` in the run fails with `AlreadyInitialized`.
pub proof fn initialized_until_disposed(
    states: Seq<ServerView>,
    requests: Seq<FfiRequest>,
    results: Seq<Result<Reply, FfiError>>,
    k: int,
)
    requires
        states.len() == requests.len() + 1,
        results.len() == requests.len(),
        forall|i: int|
            #![trigger results[i]]
            0 <= i < requests.len() ==> request_outcome(
                states[i],
                requests[i],
                states[i + 1],
                results[i],
            ),
        forall|i: int|
            0 <= i < requests.len() ==> !(#[trigger] requests[i].message matches Some(
                RequestMessage::Dispose(_),
            )),
        states[0].config is Some,
        0 <= k <= requests.len(),
    ensures
        states[k].config == states[0].config,
        k < requests.len() ==> ((requests[k].message matches Some(RequestMessage::Initialize(_)))
            ==> (results[k] matches Err(FfiError::AlreadyInitialized))),
    decreases k,
{
    if k > 0 {
        initialized_until_disposed(states, requests, results, k - 1);
        assert(request_outcome(states[k - 1], requests[k - 1], states[k], results[k - 1]));
        assert(!(requests[k - 1].message matches Some(RequestMessage::Dispose(_))));
        requests_keep_configuration(states[k - 1], requests[k - 1], states[k], results[k - 1]);
    }
    if k < requests.len() {
        assert(request_outcome(states[k], requests[k], states[k + 1], results[k]));
        assert(!(requests[k].message matches Some(RequestMessage::Dispose(_))));
        if k == 0 {
            requests_keep_configuration(states[0], requests[0], states[1], results[0]);
        } else {
            requests_keep_configuration(states[k], requests[k], states[k + 1], results[k]);
        }
    }
}

/// Law: answering a request never removes or replaces a handle and adds at
/// most one, under the id it takes; while ids are not exhausted every handle
/// id stays in `1..next_id`.
pub proof fn requests_only_add_handles(
    pre: ServerView,
    request: FfiRequest,
    post: ServerView,
    res: Result<Reply, FfiError>,
)
    requires
        pre.wf(),
        pre.next_id < u64::MAX,
        request_outcome(pre, request, post, res),
    ensures
        post.wf(),
        forall|k: u64| #[trigger]
            pre.handles.contains_key(k) ==> post.handles.contains_key(k) && post.handles[k]
                == pre.handles[k],
        forall|k: u64| #[trigger]
            post.handles.contains_key(k) ==> pre.handles.contains_key(k) || k == pre.next_id,
{
}

/// Law: a server is initialized once. Initializing an uninitialized server
/// sets the callback that events go to; initializing it again fails with
/// `AlreadyInitialized` and changes nothing; disposing of it makes
/// `Initialize` succeed again.
pub proof fn initialize_once_until_disposed(
    s0: ServerView,
    init: InitializeRequest,
    s1: ServerView,
    r1: Result<Reply, FfiError>,
    again: InitializeRequest,
    s2: ServerView,
    r2: Result<Reply, FfiError>,
    dispose: DisposeRequest,
    s3: ServerView,
    r3: Result<Reply, FfiError>,
    init3: InitializeRequest,
    s4: ServerView,
    r4: Result<Reply, FfiError>,
)
    requires
        s0.config is None,
        initialize_outcome(s0, init, s1, r1),
        initialize_outcome(s1, again, s2, r2),
        dispose_outcome(s2, dispose, s3, r3),
        initialize_outcome(s3, init3, s4, r4),
    ensures
        r1 is Ok,
        s1.config == Some(FfiConfig { callback_fn: init.event_callback_ptr }),
        r2 matches Err(FfiError::AlreadyInitialized),
        s2 == s1,
        s3.config is None,
        r4 is Ok,
        s4.config == Some(FfiConfig { callback_fn: init3.event_callback_ptr }),
{
}

} // verus!
