//! Verified core of a LiveKit FFI bridge: buffer layouts and colour-conversion
//! planning, the FFI server's request handling and handle bookkeeping, video
//! sources, media stream tracks and the peer transport's negotiation state.

pub mod colorcvt;
pub mod error;
pub mod media_stream;
pub mod peer_transport;
pub mod proto;
pub mod server;
pub mod video_source;
pub mod webrtc;
