//! Plain-value messages of the FFI protocol that the library's logic reads
//! and writes.
use vstd::prelude::*;

verus! {

/// Pixel layout of a raw video buffer handed across the FFI boundary.
#[derive(Clone, Copy, Debug, PartialEq, Eq, Structural)]
pub enum VideoBufferType {
    Rgba,
    Abgr,
    Argb,
    Bgra,
    Rgb24,
    I420,
    I420a,
    I422,
    I444,
    I010,
    Nv12,
}

/// One plane of a planar buffer: where it starts, its row stride and its size.
#[derive(Clone, Copy, Debug, PartialEq, Eq, Structural)]
pub struct ComponentInfo {
    pub data_ptr: u64,
    pub stride: u32,
    pub size: u32,
}

/// Description of a raw video buffer: its layout, its dimensions, where its
/// bytes are, and (for planar layouts) its planes.
#[derive(Debug)]
pub struct VideoBufferInfo {
    pub buffer_type: VideoBufferType,
    pub width: u32,
    pub height: u32,
    pub data_ptr: u64,
    pub data_len: u32,
    pub stride: u32,
    pub components: Vec<ComponentInfo>,
}

/// A handle id as it travels in messages.
#[derive(Clone, Copy, Debug, PartialEq, Eq, Structural)]
pub struct FfiHandleId {
    pub id: u64,
}

/// Layout of a video frame buffer held by the server.
#[derive(Clone, Copy, Debug, PartialEq, Eq, Structural)]
pub enum VideoFrameBufferType {
    Native,
    I420,
    I420a,
    I422,
    I444,
    I010,
    Nv12,
}

/// Byte order of a 32-bit RGB buffer.
#[derive(Clone, Copy, Debug, PartialEq, Eq, Structural)]
pub enum VideoFormatType {
    FormatArgb,
    FormatBgra,
    FormatAbgr,
    FormatRgba,
}

/// Rotation of a captured frame.
#[derive(Clone, Copy, Debug, PartialEq, Eq, Structural)]
pub enum VideoRotation {
    VideoRotation0,
    VideoRotation90,
    VideoRotation180,
    VideoRotation270,
}

/// Kind of video source the server can create.
#[derive(Clone, Copy, Debug, PartialEq, Eq, Structural)]
pub enum VideoSourceType {
    VideoSourceNative,
}

/// Dimensions a video source is created for.
#[derive(Clone, Copy, Debug, PartialEq, Eq, Structural)]
pub struct VideoResolution {
    pub width: u32,
    pub height: u32,
}

/// Options of a track publication, handed through to the publisher.
#[derive(Clone, Copy, Debug, PartialEq, Eq, Structural)]
pub struct TrackPublishOptions {
    pub video_codec: i32,
    pub simulcast: bool,
    pub source: i32,
}

/// Sets the callback that receives events.
#[derive(Clone, Copy, Debug, PartialEq, Eq, Structural)]
pub struct InitializeRequest {
    pub event_callback_ptr: u64,
}

/// Tears the server down, waiting for it or not.
#[derive(Clone, Copy, Debug, PartialEq, Eq, Structural)]
pub struct DisposeRequest {
    pub is_async: bool,
}

/// Connects to a room.
#[derive(Debug)]
pub struct ConnectRequest {
    pub url: String,
    pub token: String,
}

/// Leaves a room.
#[derive(Debug)]
pub struct DisconnectRequest {
    pub room_sid: String,
}

/// Publishes a local track in a room.
#[derive(Debug)]
pub struct PublishTrackRequest {
    pub room_sid: String,
    pub track_handle: Option<FfiHandleId>,
    pub options: Option<TrackPublishOptions>,
}

/// Withdraws a published track.
#[derive(Debug)]
pub struct UnpublishTrackRequest {
    pub room_sid: String,
    pub track_sid: String,
}

/// Creates a local video track fed by a video source.
#[derive(Debug)]
pub struct CreateVideoTrackRequest {
    pub name: String,
    pub source_handle: Option<FfiHandleId>,
}

/// Creates a local audio track fed by an audio source.
#[derive(Debug)]
pub struct CreateAudioTrackRequest {
    pub name: String,
    pub source_handle: Option<FfiHandleId>,
}

/// Allocates a video frame buffer.
#[derive(Clone, Copy, Debug, PartialEq, Eq, Structural)]
pub struct AllocVideoBufferRequest {
    pub buffer_type: VideoFrameBufferType,
    pub width: u32,
    pub height: u32,
}

/// Opens a stream of the frames of a remote video track.
#[derive(Debug)]
pub struct NewVideoStreamRequest {
    pub room_sid: String,
    pub participant_sid: String,
    pub track_sid: String,
}

/// Creates a video source.
#[derive(Clone, Copy, Debug, PartialEq, Eq, Structural)]
pub struct NewVideoSourceRequest {
    pub source_type: VideoSourceType,
    pub resolution: Option<VideoResolution>,
}

/// Timing and rotation of a frame to capture.
#[derive(Clone, Copy, Debug, PartialEq, Eq, Structural)]
pub struct VideoFrameInfo {
    pub timestamp_us: i64,
    pub rotation: VideoRotation,
}

/// Pushes the frame held in a buffer into a video source.
#[derive(Clone, Copy, Debug, PartialEq, Eq, Structural)]
pub struct CaptureVideoFrameRequest {
    pub source_handle: Option<FfiHandleId>,
    pub frame: Option<VideoFrameInfo>,
    pub buffer_handle: u64,
}

/// A 32-bit RGB image owned by the caller.
#[derive(Clone, Copy, Debug, PartialEq, Eq, Structural)]
pub struct ArgbBufferInfo {
    pub ptr: u64,
    pub format: VideoFormatType,
    pub stride: u32,
    pub width: u32,
    pub height: u32,
}

/// What to convert into a new I420 buffer.
#[derive(Clone, Copy, Debug, PartialEq, Eq, Structural)]
pub enum ToI420From {
    Argb(ArgbBufferInfo),
    Buffer(FfiHandleId),
}

/// Converts a caller's image or a held buffer into a new I420 buffer.
#[derive(Clone, Copy, Debug, PartialEq, Eq, Structural)]
pub struct ToI420Request {
    pub flip_y: bool,
    pub from: Option<ToI420From>,
}

/// Converts a held buffer into a caller's 32-bit RGB image.
#[derive(Clone, Copy, Debug, PartialEq, Eq, Structural)]
pub struct ToArgbRequest {
    pub buffer: Option<FfiHandleId>,
    pub dst_ptr: u64,
    pub dst_format: VideoFormatType,
    pub dst_stride: u32,
    pub dst_width: u32,
    pub dst_height: u32,
    pub flip_y: bool,
}

/// Allocates an audio frame.
#[derive(Clone, Copy, Debug, PartialEq, Eq, Structural)]
pub struct AllocAudioBufferRequest {
    pub sample_rate: u32,
    pub num_channels: u32,
    pub samples_per_channel: u32,
}

/// Opens a stream of the frames of a remote audio track.
#[derive(Debug)]
pub struct NewAudioStreamRequest {
    pub room_sid: String,
    pub participant_sid: String,
    pub track_sid: String,
}

/// Creates an audio source.
#[derive(Clone, Copy, Debug, PartialEq, Eq, Structural)]
pub struct NewAudioSourceRequest {
    pub source_type: i32,
}

/// Pushes an audio frame into an audio source.
#[derive(Clone, Copy, Debug, PartialEq, Eq, Structural)]
pub struct CaptureAudioFrameRequest {
    pub source_handle: Option<FfiHandleId>,
    pub buffer_handle: Option<FfiHandleId>,
}

/// The requests the server answers.
#[derive(Debug)]
pub enum RequestMessage {
    Initialize(InitializeRequest),
    Dispose(DisposeRequest),
    Connect(ConnectRequest),
    Disconnect(DisconnectRequest),
    PublishTrack(PublishTrackRequest),
    UnpublishTrack(UnpublishTrackRequest),
    CreateVideoTrack(CreateVideoTrackRequest),
    CreateAudioTrack(CreateAudioTrackRequest),
    AllocVideoBuffer(AllocVideoBufferRequest),
    NewVideoStream(NewVideoStreamRequest),
    NewVideoSource(NewVideoSourceRequest),
    CaptureVideoFrame(CaptureVideoFrameRequest),
    ToI420(ToI420Request),
    ToArgb(ToArgbRequest),
    AllocAudioBuffer(AllocAudioBufferRequest),
    NewAudioStream(NewAudioStreamRequest),
    NewAudioSource(NewAudioSourceRequest),
    CaptureAudioFrame(CaptureAudioFrameRequest),
}

/// A request as it arrives: its message may be missing.
#[derive(Debug)]
pub struct FfiRequest {
    pub message: Option<RequestMessage>,
}

/// A track created by the server.
#[derive(Debug)]
pub struct TrackInfo {
    pub handle: FfiHandleId,
    pub name: String,
    pub kind: crate::media_stream::TrackKind,
}

/// A video frame buffer held by the server.
#[derive(Clone, Copy, Debug, PartialEq, Eq, Structural)]
pub struct VideoFrameBufferInfo {
    pub handle: FfiHandleId,
    pub buffer_type: VideoFrameBufferType,
    pub width: u32,
    pub height: u32,
    pub stride_y: u32,
    pub stride_u: u32,
    pub stride_v: u32,
}

/// An audio frame held by the server.
#[derive(Clone, Copy, Debug, PartialEq, Eq, Structural)]
pub struct AudioFrameBufferInfo {
    pub handle: FfiHandleId,
    pub sample_rate: u32,
    pub num_channels: u32,
    pub samples_per_channel: u32,
}

/// A video source created by the server.
#[derive(Clone, Copy, Debug, PartialEq, Eq, Structural)]
pub struct VideoSourceInfo {
    pub handle: FfiHandleId,
    pub source_type: VideoSourceType,
}

/// The server's answers.
#[derive(Debug)]
pub enum ResponseMessage {
    Initialize,
    /// `async_id` is set when the teardown goes on in the background.
    Dispose { async_id: Option<u64> },
    Connect { async_id: u64 },
    Disconnect,
    PublishTrack { async_id: u64 },
    UnpublishTrack,
    CreateVideoTrack { track: TrackInfo },
    CreateAudioTrack { track: TrackInfo },
    AllocVideoBuffer { buffer: VideoFrameBufferInfo },
    NewVideoSource { source: VideoSourceInfo },
    CaptureVideoFrame,
    ToI420 { buffer: VideoFrameBufferInfo },
    ToArgb,
    AllocAudioBuffer { buffer: AudioFrameBufferInfo },
}

} // verus!
