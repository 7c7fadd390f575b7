use livekit_ffi::error::FfiError;
use livekit_ffi::media_stream::TrackKind;
use livekit_ffi::proto::{
    AllocAudioBufferRequest, AllocVideoBufferRequest, ArgbBufferInfo, CaptureAudioFrameRequest,
    CaptureVideoFrameRequest, ConnectRequest, CreateAudioTrackRequest, CreateVideoTrackRequest,
    DisconnectRequest, DisposeRequest, FfiHandleId, FfiRequest, InitializeRequest,
    NewVideoSourceRequest, NewVideoStreamRequest, PublishTrackRequest, RequestMessage,
    ResponseMessage, ToArgbRequest, ToI420From, ToI420Request, UnpublishTrackRequest,
    VideoFormatType, VideoFrameBufferType, VideoFrameInfo, VideoResolution, VideoRotation,
    VideoSourceType,
};
use livekit_ffi::server::{FfiHandle, FfiServer, FfiTask, Forwarded, Reply};

fn send(server: &mut FfiServer, m: RequestMessage) -> Result<Reply, FfiError> {
    server.handle_request(FfiRequest { message: Some(m) })
}

fn message(r: Result<Reply, FfiError>) -> String {
    match r {
        Err(FfiError::InvalidRequest(m)) => m,
        other => panic!("expected an invalid request, got {:?}", other),
    }
}

fn respond(r: Result<Reply, FfiError>) -> (ResponseMessage, FfiTask) {
    match r {
        Ok(Reply::Respond(m, t)) => (m, t),
        other => panic!("expected a response, got {:?}", other),
    }
}

fn handle(id: u64) -> Option<FfiHandleId> {
    Some(FfiHandleId { id })
}

fn new_source(server: &mut FfiServer) -> u64 {
    match respond(send(
        server,
        RequestMessage::NewVideoSource(NewVideoSourceRequest {
            source_type: VideoSourceType::VideoSourceNative,
            resolution: None,
        }),
    )) {
        (ResponseMessage::NewVideoSource { source }, FfiTask::Nothing) => source.handle.id,
        other => panic!("unexpected {:?}", other),
    }
}

fn alloc_buffer(server: &mut FfiServer, w: u32, h: u32) -> u64 {
    match respond(send(
        server,
        RequestMessage::AllocVideoBuffer(AllocVideoBufferRequest {
            buffer_type: VideoFrameBufferType::I420,
            width: w,
            height: h,
        }),
    )) {
        (ResponseMessage::AllocVideoBuffer { buffer }, FfiTask::AllocateVideoBuffer { handle }) => {
            assert_eq!(buffer.handle.id, handle);
            handle
        }
        other => panic!("unexpected {:?}", other),
    }
}

#[test]
fn missing_message_is_refused() {
    let mut s = FfiServer::new();
    assert_eq!(message(s.handle_request(FfiRequest { message: None })), "message is empty");
}

#[test]
fn initialize_once_until_disposed() {
    let mut s = FfiServer::default();
    assert!(matches!(s.send_event(), Err(FfiError::NotConfigured)));
    let (m, t) = respond(send(&mut s, RequestMessage::Initialize(InitializeRequest { event_callback_ptr: 0xabc })));
    assert!(matches!(m, ResponseMessage::Initialize));
    assert!(matches!(t, FfiTask::Nothing));
    assert_eq!(s.send_event().unwrap().callback_fn, 0xabc);
    let again = send(&mut s, RequestMessage::Initialize(InitializeRequest { event_callback_ptr: 1 }));
    assert!(matches!(again, Err(FfiError::AlreadyInitialized)));
    assert_eq!(s.send_event().unwrap().callback_fn, 0xabc);

    s.insert_room("RM_1".to_string());
    let (m, t) = respond(send(&mut s, RequestMessage::Dispose(DisposeRequest { is_async: false })));
    assert!(matches!(m, ResponseMessage::Dispose { async_id: None }));
    match t {
        FfiTask::CloseRooms { rooms, blocking } => {
            assert_eq!(rooms, vec!["RM_1".to_string()]);
            assert!(blocking);
        }
        other => panic!("unexpected {:?}", other),
    }
    assert!(matches!(s.send_event(), Err(FfiError::NotConfigured)));
    assert!(!s.has_room(&"RM_1".to_string()));
    assert!(send(&mut s, RequestMessage::Initialize(InitializeRequest { event_callback_ptr: 2 })).is_ok());
    assert_eq!(s.send_event().unwrap().callback_fn, 2);
}

#[test]
fn async_dispose_takes_an_id() {
    let mut s = FfiServer::new();
    let (m, t) = respond(send(&mut s, RequestMessage::Dispose(DisposeRequest { is_async: true })));
    assert!(matches!(m, ResponseMessage::Dispose { async_id: Some(1) }));
    assert!(matches!(t, FfiTask::CloseRooms { blocking: false, .. }));
    assert_eq!(s.next_id(), 2);
}

#[test]
fn connect_and_publish_take_consecutive_ids() {
    let mut s = FfiServer::new();
    let (m, t) = respond(send(
        &mut s,
        RequestMessage::Connect(ConnectRequest { url: "wss://x".to_string(), token: "t".to_string() }),
    ));
    assert!(matches!(m, ResponseMessage::Connect { async_id: 1 }));
    match t {
        FfiTask::Connect { async_id, request } => {
            assert_eq!(async_id, 1);
            assert_eq!(request.url, "wss://x");
        }
        other => panic!("unexpected {:?}", other),
    }
    let (m, _) = respond(send(
        &mut s,
        RequestMessage::PublishTrack(PublishTrackRequest {
            room_sid: "RM".to_string(),
            track_handle: handle(5),
            options: None,
        }),
    ));
    assert!(matches!(m, ResponseMessage::PublishTrack { async_id: 2 }));
}

#[test]
fn disconnect_and_unpublish_answer_empty() {
    let mut s = FfiServer::new();
    let (m, t) = respond(send(&mut s, RequestMessage::Disconnect(DisconnectRequest { room_sid: "r".to_string() })));
    assert!(matches!(m, ResponseMessage::Disconnect));
    assert!(matches!(t, FfiTask::Nothing));
    let (m, _) = respond(send(
        &mut s,
        RequestMessage::UnpublishTrack(UnpublishTrackRequest { room_sid: "r".to_string(), track_sid: "t".to_string() }),
    ));
    assert!(matches!(m, ResponseMessage::UnpublishTrack));
    assert_eq!(s.next_id(), 1);
}

#[test]
fn video_source_setup_uses_resolution() {
    let mut s = FfiServer::new();
    let r = send(
        &mut s,
        RequestMessage::NewVideoSource(NewVideoSourceRequest {
            source_type: VideoSourceType::VideoSourceNative,
            resolution: Some(VideoResolution { width: 640, height: 480 }),
        }),
    );
    let id = match respond(r) {
        (ResponseMessage::NewVideoSource { source }, _) => {
            assert_eq!(source.source_type, VideoSourceType::VideoSourceNative);
            source.handle.id
        }
        other => panic!("unexpected {:?}", other),
    };
    assert_eq!(id, 1);
    match s.handle(id) {
        Some(FfiHandle::VideoSource(src)) => {
            assert_eq!(src.handle_id(), 1);
            assert_eq!(src.source_type(), VideoSourceType::VideoSourceNative);
            let livekit_ffi::video_source::RtcVideoSource::Native(n) = src.inner_source();
            assert_eq!(n.resolution, VideoResolution { width: 640, height: 480 });
        }
        other => panic!("unexpected {:?}", other),
    }
    let id2 = new_source(&mut s);
    match s.handle(id2) {
        Some(FfiHandle::VideoSource(src)) => {
            let livekit_ffi::video_source::RtcVideoSource::Native(n) = src.inner_source();
            assert_eq!(n.resolution, VideoResolution { width: 1280, height: 720 });
        }
        other => panic!("unexpected {:?}", other),
    }
}

#[test]
fn create_video_track_checks_its_source() {
    let mut s = FfiServer::new();
    let source = new_source(&mut s);
    let buffer = alloc_buffer(&mut s, 2, 2);
    let create = |h: Option<FfiHandleId>| {
        RequestMessage::CreateVideoTrack(CreateVideoTrackRequest { name: "cam".to_string(), source_handle: h })
    };
    assert_eq!(message(send(&mut s, create(None))), "source_handle is empty");
    assert_eq!(message(send(&mut s, create(handle(99)))), "source not found");
    assert_eq!(message(send(&mut s, create(handle(buffer)))), "handle is not a video source");
    match respond(send(&mut s, create(handle(source)))) {
        (ResponseMessage::CreateVideoTrack { track }, FfiTask::CreateVideoTrack { handle, source: src, name }) => {
            assert_eq!(name, "cam");
            assert_eq!(track.handle.id, 3);
            assert_eq!(handle, 3);
            assert_eq!(src, source);
            assert_eq!(track.name, "cam");
            assert_eq!(track.kind, TrackKind::Video);
        }
        other => panic!("unexpected {:?}", other),
    }
    assert!(matches!(s.handle(3), Some(FfiHandle::LocalVideoTrack(r)) if r.name == "cam" && r.source == source));
}

#[test]
fn create_audio_track_needs_an_audio_source() {
    let mut s = FfiServer::new();
    let video = new_source(&mut s);
    let audio = s.store_handle(FfiHandle::AudioSource);
    let create = |h: Option<FfiHandleId>| {
        RequestMessage::CreateAudioTrack(CreateAudioTrackRequest { name: "mic".to_string(), source_handle: h })
    };
    assert_eq!(message(send(&mut s, create(None))), "source_handle is empty");
    assert_eq!(message(send(&mut s, create(handle(42)))), "source not found");
    assert_eq!(message(send(&mut s, create(handle(video)))), "handle is not an audio source");
    match respond(send(&mut s, create(handle(audio)))) {
        (ResponseMessage::CreateAudioTrack { track }, FfiTask::CreateAudioTrack { handle, name, .. }) => {
            assert_eq!(name, "mic");
            assert_eq!(track.kind, TrackKind::Audio);
            assert_eq!(handle, 3);
        }
        other => panic!("unexpected {:?}", other),
    }
}

#[test]
fn alloc_video_buffer_only_i420() {
    let mut s = FfiServer::new();
    let r = send(
        &mut s,
        RequestMessage::AllocVideoBuffer(AllocVideoBufferRequest {
            buffer_type: VideoFrameBufferType::Nv12,
            width: 4,
            height: 4,
        }),
    );
    assert_eq!(message(r), "frame type is not supported");
    match respond(send(
        &mut s,
        RequestMessage::AllocVideoBuffer(AllocVideoBufferRequest {
            buffer_type: VideoFrameBufferType::I420,
            width: 5,
            height: 3,
        }),
    )) {
        (ResponseMessage::AllocVideoBuffer { buffer }, FfiTask::AllocateVideoBuffer { handle }) => {
            assert_eq!(handle, 1);
            assert_eq!((buffer.width, buffer.height), (5, 3));
            assert_eq!((buffer.stride_y, buffer.stride_u, buffer.stride_v), (5, 3, 3));
        }
        other => panic!("unexpected {:?}", other),
    }
}

#[test]
fn capture_video_frame_checks_source_and_buffer() {
    let mut s = FfiServer::new();
    let source = new_source(&mut s);
    let buffer = alloc_buffer(&mut s, 4, 4);
    let frame = Some(VideoFrameInfo { timestamp_us: 33, rotation: VideoRotation::VideoRotation90 });
    let capture = |src: Option<FfiHandleId>, frame: Option<VideoFrameInfo>, buf: u64| {
        RequestMessage::CaptureVideoFrame(CaptureVideoFrameRequest { source_handle: src, frame, buffer_handle: buf })
    };
    assert_eq!(message(send(&mut s, capture(None, frame, buffer))), "source_handle is empty");
    assert_eq!(message(send(&mut s, capture(handle(buffer), frame, buffer))), "handle is not a video source");
    assert_eq!(message(send(&mut s, capture(handle(source), None, buffer))), "frame is empty");
    assert_eq!(message(send(&mut s, capture(handle(source), frame, 77))), "handle not found");
    assert_eq!(message(send(&mut s, capture(handle(source), frame, source))), "handle is not video frame");
    match respond(send(&mut s, capture(handle(source), frame, buffer))) {
        (ResponseMessage::CaptureVideoFrame, FfiTask::PushVideoFrame { source: src, frame }) => {
            assert_eq!(src, source);
            assert_eq!(frame.buffer, buffer);
            assert_eq!(frame.timestamp_us, 33);
            assert_eq!(frame.rotation, VideoRotation::VideoRotation90);
        }
        other => panic!("unexpected {:?}", other),
    }
}

#[test]
fn to_i420_from_caller_image() {
    let mut s = FfiServer::new();
    let argb = |format: VideoFormatType| ArgbBufferInfo { ptr: 0x100, format, stride: 16, width: 4, height: 3 };
    let r = send(&mut s, RequestMessage::ToI420(ToI420Request { flip_y: false, from: None }));
    assert_eq!(message(r), "from is empty");
    let r = send(
        &mut s,
        RequestMessage::ToI420(ToI420Request { flip_y: false, from: Some(ToI420From::Argb(argb(VideoFormatType::FormatRgba))) }),
    );
    assert_eq!(message(r), "the format is not supported");
    match respond(send(
        &mut s,
        RequestMessage::ToI420(ToI420Request { flip_y: true, from: Some(ToI420From::Argb(argb(VideoFormatType::FormatAbgr))) }),
    )) {
        (ResponseMessage::ToI420 { buffer }, FfiTask::ConvertArgbToI420 { target, image, width, height }) => {
            assert_eq!(target, 1);
            assert_eq!(buffer.handle.id, 1);
            assert_eq!((buffer.width, buffer.height, buffer.stride_u), (4, 3, 2));
            assert_eq!(image.ptr, 0x100);
            assert_eq!((width, height), (4, -3));
        }
        other => panic!("unexpected {:?}", other),
    }
}

#[test]
fn to_i420_from_held_buffer() {
    let mut s = FfiServer::new();
    let source = new_source(&mut s);
    let buffer = alloc_buffer(&mut s, 6, 2);
    let from = |id: u64| RequestMessage::ToI420(ToI420Request { flip_y: false, from: Some(ToI420From::Buffer(FfiHandleId { id })) });
    assert_eq!(message(send(&mut s, from(50))), "handle not found");
    assert_eq!(message(send(&mut s, from(source))), "handle is not a video buffer");
    match respond(send(&mut s, from(buffer))) {
        (ResponseMessage::ToI420 { buffer: info }, FfiTask::ConvertBufferToI420 { target, source: src }) => {
            assert_eq!(target, 3);
            assert_eq!(src, buffer);
            assert_eq!((info.width, info.height), (6, 2));
        }
        other => panic!("unexpected {:?}", other),
    }
}

#[test]
fn to_argb_checks_buffer() {
    let mut s = FfiServer::new();
    let source = new_source(&mut s);
    let buffer = alloc_buffer(&mut s, 4, 4);
    let req = |b: Option<FfiHandleId>, flip_y: bool| {
        RequestMessage::ToArgb(ToArgbRequest {
            buffer: b,
            dst_ptr: 0x500,
            dst_format: VideoFormatType::FormatBgra,
            dst_stride: 16,
            dst_width: 4,
            dst_height: 4,
            flip_y,
        })
    };
    assert_eq!(message(send(&mut s, req(None, false))), "buffer is empty");
    assert_eq!(message(send(&mut s, req(handle(9), false))), "handle is not found");
    assert_eq!(message(send(&mut s, req(handle(source), false))), "handle is not a video buffer");
    match respond(send(&mut s, req(handle(buffer), true))) {
        (ResponseMessage::ToArgb, FfiTask::ConvertToArgb { buffer: b, dst_ptr, format, stride, width, height }) => {
            assert_eq!(b, buffer);
            assert_eq!(dst_ptr, 0x500);
            assert_eq!(format, VideoFormatType::FormatBgra);
            assert_eq!(stride, 16);
            assert_eq!((width, height), (4, -4));
        }
        other => panic!("unexpected {:?}", other),
    }
}

#[test]
fn audio_buffers_and_capture() {
    let mut s = FfiServer::new();
    match respond(send(
        &mut s,
        RequestMessage::AllocAudioBuffer(AllocAudioBufferRequest { sample_rate: 48000, num_channels: 2, samples_per_channel: 480 }),
    )) {
        (ResponseMessage::AllocAudioBuffer { buffer }, FfiTask::AllocateAudioFrame { handle }) => {
            assert_eq!(handle, 1);
            assert_eq!((buffer.sample_rate, buffer.num_channels, buffer.samples_per_channel), (48000, 2, 480));
        }
        other => panic!("unexpected {:?}", other),
    }
    let audio = s.store_handle(FfiHandle::AudioSource);
    let capture = |h: Option<FfiHandleId>| {
        RequestMessage::CaptureAudioFrame(CaptureAudioFrameRequest { source_handle: h, buffer_handle: handle(1) })
    };
    assert_eq!(message(send(&mut s, capture(None))), "handle is empty");
    assert_eq!(message(send(&mut s, capture(handle(30)))), "handle not found");
    assert_eq!(message(send(&mut s, capture(handle(1)))), "handle is not a video source");
    match send(&mut s, capture(handle(audio))) {
        Ok(Reply::Forward(Forwarded::CaptureAudioFrame { source, .. })) => assert_eq!(source, audio),
        other => panic!("unexpected {:?}", other),
    }
}

#[test]
fn stream_requests_are_forwarded() {
    let mut s = FfiServer::new();
    match send(
        &mut s,
        RequestMessage::NewVideoStream(NewVideoStreamRequest {
            room_sid: "r".to_string(),
            participant_sid: "p".to_string(),
            track_sid: "t".to_string(),
        }),
    ) {
        Ok(Reply::Forward(Forwarded::NewVideoStream(q))) => assert_eq!(q.track_sid, "t"),
        other => panic!("unexpected {:?}", other),
    }
}

#[test]
fn publish_resolution_checks_room_and_track() {
    let mut s = FfiServer::new();
    let source = new_source(&mut s);
    let publish = |room: &str, h: Option<FfiHandleId>| PublishTrackRequest { room_sid: room.to_string(), track_handle: h, options: None };
    assert_eq!(message_of(s.resolve_publish(&publish("RM", handle(1)))), "room not found");
    s.insert_room("RM".to_string());
    s.insert_room("RM".to_string());
    assert_eq!(s.close().len(), 1);
    s.insert_room("RM".to_string());
    assert_eq!(message_of(s.resolve_publish(&publish("RM", None))), "track_handle is empty");
    assert_eq!(message_of(s.resolve_publish(&publish("RM", handle(20)))), "track not found");
    assert_eq!(message_of(s.resolve_publish(&publish("RM", handle(source)))), "track is not a LocalTrack");
    let track = s.store_handle(FfiHandle::LocalTrack(livekit_ffi::server::TrackRecord { name: "t".to_string(), source }));
    assert_eq!(s.resolve_publish(&publish("RM", handle(track))).unwrap(), track);
}

fn message_of(r: Result<u64, FfiError>) -> String {
    match r {
        Err(FfiError::InvalidRequest(m)) => m,
        other => panic!("unexpected {:?}", other),
    }
}

#[test]
fn ids_are_never_reused() {
    let mut s = FfiServer::new();
    let a = s.store_handle(FfiHandle::VideoStream);
    let b = s.next_id();
    let c = s.store_handle(FfiHandle::AudioStream);
    assert_eq!((a, b, c), (1, 2, 3));
    assert!(matches!(s.handle(1), Some(FfiHandle::VideoStream)));
    assert!(s.handle(2).is_none());
    assert_eq!(s.ffi_handles().len(), 2);
}

#[test]
fn requests_keep_existing_handles() {
    let mut s = FfiServer::new();
    let source = new_source(&mut s);
    let buffer = alloc_buffer(&mut s, 2, 2);
    let _ = send(&mut s, RequestMessage::ToI420(ToI420Request { flip_y: false, from: Some(ToI420From::Buffer(FfiHandleId { id: buffer })) }));
    let _ = send(&mut s, RequestMessage::Dispose(DisposeRequest { is_async: true }));
    let _ = send(&mut s, RequestMessage::AllocVideoBuffer(AllocVideoBufferRequest { buffer_type: VideoFrameBufferType::Native, width: 1, height: 1 }));
    assert!(matches!(s.handle(source), Some(FfiHandle::VideoSource(_))));
    assert!(matches!(s.handle(buffer), Some(FfiHandle::VideoFrameBuffer(b)) if b.width == 2));
    assert!(matches!(s.handle(3), Some(FfiHandle::VideoFrameBuffer(_))));
    assert_eq!(s.ffi_handles().len(), 3);
    assert!(s.handle(0).is_none());
}

#[test]
fn request_checks() {
    let mut s = FfiServer::new();
    let capture = FfiRequest {
        message: Some(RequestMessage::CaptureVideoFrame(CaptureVideoFrameRequest {
            source_handle: Some(FfiHandleId { id: 4 }),
            frame: None,
            buffer_handle: 0,
        })),
    };
    assert!(!s.check_request(&capture));
    let buffer = alloc_buffer(&mut s, 2, 2);
    let flip = |b: Option<FfiHandleId>| FfiRequest {
        message: Some(RequestMessage::ToArgb(ToArgbRequest {
            buffer: b,
            dst_ptr: 0,
            dst_format: VideoFormatType::FormatArgb,
            dst_stride: 0,
            dst_width: 0,
            dst_height: 0x8000_0000,
            flip_y: true,
        })),
    };
    assert!(!s.check_request(&flip(handle(buffer))));
    assert!(s.check_request(&flip(None)));
    assert!(s.check_request(&flip(handle(77))));
    assert!(s.check_request(&FfiRequest { message: None }));
}

#[test]
fn to_argb_refuses_a_missing_buffer_whatever_its_height() {
    let mut s = FfiServer::new();
    let source = new_source(&mut s);
    let req = |b: Option<FfiHandleId>| FfiRequest {
        message: Some(RequestMessage::ToArgb(ToArgbRequest {
            buffer: b,
            dst_ptr: 0,
            dst_format: VideoFormatType::FormatArgb,
            dst_stride: 0,
            dst_width: 0,
            dst_height: 0x8000_0000,
            flip_y: true,
        })),
    };
    assert!(s.check_request(&req(None)));
    assert_eq!(message(s.handle_request(req(None))), "buffer is empty");
    assert_eq!(message(s.handle_request(req(handle(50)))), "handle is not found");
    assert_eq!(message(s.handle_request(req(handle(source)))), "handle is not a video buffer");
}

#[test]
fn setups_report_their_own_distinct_handles() {
    let mut s = FfiServer::new();
    let a = new_source(&mut s);
    let _ = send(&mut s, RequestMessage::Connect(ConnectRequest { url: "u".to_string(), token: "t".to_string() }));
    let b = new_source(&mut s);
    assert_ne!(a, b);
    for id in [a, b] {
        match s.handle(id) {
            Some(FfiHandle::VideoSource(src)) => assert_eq!(src.handle_id(), id),
            other => panic!("unexpected {:?}", other),
        }
    }
}

#[test]
fn handler_errors_pass_through() {
    let mut s = FfiServer::new();
    let direct = s.on_to_argb(ToArgbRequest {
        buffer: None,
        dst_ptr: 0,
        dst_format: VideoFormatType::FormatArgb,
        dst_stride: 0,
        dst_width: 0,
        dst_height: 0,
        flip_y: false,
    });
    assert_eq!(message(direct), "buffer is empty");
    let _ = s.on_initialize(InitializeRequest { event_callback_ptr: 5 });
    let again = send(&mut s, RequestMessage::Initialize(InitializeRequest { event_callback_ptr: 6 }));
    assert!(matches!(again, Err(FfiError::AlreadyInitialized)));
    assert_eq!(s.send_event().unwrap().callback_fn, 5);
}
