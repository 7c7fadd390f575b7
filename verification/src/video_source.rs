//! Video sources created through the FFI server, and the capture of frames
//! into them.
use vstd::prelude::*;

use crate::error::{fails_with, invalid_request, FfiError};
use crate::proto::{
    CaptureVideoFrameRequest, FfiHandleId, NewVideoSourceRequest, VideoResolution, VideoRotation,
    VideoSourceInfo, VideoSourceType,
};
use crate::server::{takes_id, FfiHandle, FfiServer, ServerView};

verus! {

/// A source of video frames produced by the application.
#[derive(Clone, Copy, Debug, PartialEq, Eq, Structural)]
pub struct NativeVideoSource {
    pub resolution: VideoResolution,
}

/// The kinds of video source the server holds.
#[derive(Clone, Copy, Debug, PartialEq, Eq, Structural)]
pub enum RtcVideoSource {
    Native(NativeVideoSource),
}

/// A frame to push into a source: the buffer that holds it (by handle),
/// its rotation and its timestamp.
#[derive(Clone, Copy, Debug, PartialEq, Eq, Structural)]
pub struct VideoFrame {
    pub rotation: VideoRotation,
    pub timestamp_us: i64,
    pub buffer: u64,
}

/// A video source registered with the server under a handle.
#[derive(Clone, Copy, Debug, PartialEq, Eq, Structural)]
pub struct FfiVideoSource {
    handle_id: u64,
    source_type: VideoSourceType,
    source: RtcVideoSource,
}

/// Resolution a source is created with when the request names none.
pub open spec fn default_resolution() -> VideoResolution {
    VideoResolution { width: 1280, height: 720 }
}

/// The source that `setup` creates for `req` under handle `id`.
pub closed spec fn source_for(id: u64, req: NewVideoSourceRequest) -> FfiVideoSource {
    FfiVideoSource {
        handle_id: id,
        source_type: req.source_type,
        source: RtcVideoSource::Native(
            NativeVideoSource {
                resolution: match req.resolution {
                    Some(r) => r,
                    None => default_resolution(),
                },
            },
        ),
    }
}

/// What `setup` does: the server stores the new source under a fresh
/// handle and the result describes it.
pub open spec fn setup_outcome(
    pre: ServerView,
    req: NewVideoSourceRequest,
    post: ServerView,
    res: Result<VideoSourceInfo, FfiError>,
) -> bool {
    &&& post == pre.stored(FfiHandle::VideoSource(source_for(pre.next_id, req)))
    &&& res == Ok::<VideoSourceInfo, FfiError>(
        VideoSourceInfo { handle: FfiHandleId { id: pre.next_id }, source_type: req.source_type },
    )
}

/// The message of the error with which capturing `c` fails, if it fails.
pub open spec fn capture_error(handles: Map<u64, FfiHandle>, c: CaptureVideoFrameRequest) -> Option<
    Seq<char>,
> {
    if c.frame is None {
        Some("frame is empty"@)
    } else if !handles.contains_key(c.buffer_handle) {
        Some("handle not found"@)
    } else if !(handles[c.buffer_handle] is VideoFrameBuffer) {
        Some("handle is not video frame"@)
    } else {
        None
    }
}

/// The frame that capturing `c` pushes, when it does not fail.
pub open spec fn captured_frame(c: CaptureVideoFrameRequest) -> VideoFrame {
    VideoFrame {
        rotation: c.frame.unwrap().rotation,
        timestamp_us: c.frame.unwrap().timestamp_us,
        buffer: c.buffer_handle,
    }
}

impl FfiVideoSource {
    /// The handle the source is registered under.
    pub closed spec fn handle_of(&self) -> u64 {
        self.handle_id
    }

    /// The kind of source requested.
    pub closed spec fn source_type_of(&self) -> VideoSourceType {
        self.source_type
    }

    /// The source itself.
    pub closed spec fn source_of(&self) -> RtcVideoSource {
        self.source
    }

    /// Creates a source for `new_source`, stores it in the server under a
    /// fresh handle and describes it.
    pub fn setup(server: &mut FfiServer, new_source: NewVideoSourceRequest) -> (res: Result<
        VideoSourceInfo,
        FfiError,
    >)
        ensures
            setup_outcome(old(server)@, new_source, final(server)@, res),
    {
        let resolution = match new_source.resolution {
            Some(r) => r,
            None => VideoResolution { width: 1280, height: 720 },
        };
        let source_inner = match new_source.source_type {
            VideoSourceType::VideoSourceNative => RtcVideoSource::Native(
                NativeVideoSource { resolution },
            ),
        };
        let handle_id = server.next_id();
        let video_source = FfiVideoSource {
            handle_id,
            source_type: new_source.source_type,
            source: source_inner,
        };
        let source_info = VideoSourceInfo {
            handle: FfiHandleId { id: handle_id },
            source_type: new_source.source_type,
        };
        server.insert_handle(handle_id, FfiHandle::VideoSource(video_source));
        Ok(source_info)
    }

    /// Checks a capture request against the server's handles and gives the
    /// frame to push into this source.
    pub fn capture_frame(&self, server: &FfiServer, capture: CaptureVideoFrameRequest) -> (res:
        Result<VideoFrame, FfiError>)
        ensures
            match capture_error(server@.handles, capture) {
                Some(msg) => fails_with(res, msg),
                None => res == Ok::<VideoFrame, FfiError>(captured_frame(capture)),
            },
    {
        match self.source {
            RtcVideoSource::Native(_) => {
                let frame_info = match capture.frame {
                    Some(f) => f,
                    None => {
                        return Err(invalid_request("frame is empty"));
                    },
                };
                match server.handle(capture.buffer_handle) {
                    None => {
                        return Err(invalid_request("handle not found"));
                    },
                    Some(FfiHandle::VideoFrameBuffer(_)) => {},
                    Some(_) => {
                        return Err(invalid_request("handle is not video frame"));
                    },
                }
                Ok(
                    VideoFrame {
                        rotation: frame_info.rotation,
                        timestamp_us: frame_info.timestamp_us,
                        buffer: capture.buffer_handle,
                    },
                )
            },
        }
    }

    /// The handle the source is registered under.
    pub fn handle_id(&self) -> (id: u64)
        ensures
            id == self.handle_of(),
    {
        self.handle_id
    }

    /// The kind of source requested.
    pub fn source_type(&self) -> (t: VideoSourceType)
        ensures
            t == self.source_type_of(),
    {
        self.source_type
    }

    /// The source itself.
    pub fn inner_source(&self) -> (s: &RtcVideoSource)
        ensures
            *s == self.source_of(),
    {
        &self.source
    }
}

/// Law: a source set up under handle `id` reports that handle, the
/// requested type, and the requested resolution (or the default one).
pub proof fn setup_source_reports_request(id: u64, req: NewVideoSourceRequest)
    ensures
        source_for(id, req).handle_of() == id,
        source_for(id, req).source_type_of() == req.source_type,
        source_for(id, req).source_of() == RtcVideoSource::Native(
            NativeVideoSource {
                resolution: match req.resolution {
                    Some(r) => r,
                    None => default_resolution(),
                },
            },
        ),
{
}

/// Law: a source set up on a well-formed server is stored under a fresh
/// id, reports that id as its handle, and the setup takes that id.
pub proof fn setup_stores_source_under_its_own_id(
    pre: ServerView,
    req: NewVideoSourceRequest,
    post: ServerView,
    res: Result<VideoSourceInfo, FfiError>,
)
    requires
        pre.wf(),
        pre.next_id < u64::MAX,
        setup_outcome(pre, req, post, res),
    ensures
        !pre.handles.contains_key(pre.next_id),
        res matches Ok(info) && info.handle.id == pre.next_id,
        post.handles.contains_key(pre.next_id),
        post.handles[pre.next_id] matches FfiHandle::VideoSource(s) && s.handle_of() == pre.next_id,
        takes_id(pre, post),
        post.wf(),
{
}

/// Law: two setups get distinct handles when the second starts from a
/// state reached after the first (no step having lowered the next id).
pub proof fn setups_get_distinct_handles(
    pre1: ServerView,
    req1: NewVideoSourceRequest,
    post1: ServerView,
    res1: Result<VideoSourceInfo, FfiError>,
    pre2: ServerView,
    req2: NewVideoSourceRequest,
    post2: ServerView,
    res2: Result<VideoSourceInfo, FfiError>,
)
    requires
        pre1.next_id < u64::MAX,
        setup_outcome(pre1, req1, post1, res1),
        setup_outcome(pre2, req2, post2, res2),
        post1.next_id <= pre2.next_id,
    ensures
        res1 matches Ok(i1),
        res2 matches Ok(i2),
        res1->Ok_0.handle.id != res2->Ok_0.handle.id,
        post2.handles[pre2.next_id] matches FfiHandle::VideoSource(s2) && s2.handle_of() == res2->Ok_0.handle.id,
{
}

} // verus!
