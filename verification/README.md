# livekit_ffi

A Verus-verified core for a LiveKit FFI bridge.

`src/` is the verified library:

- `colorcvt` — layouts of raw video buffers and the planning of colour
  conversions between them (`cvt_*`): which pixel routine converts a pair of
  layouts, where every source and destination plane lies, how large the
  destination is, and the description of the result.
- `server` — the FFI server's state (callback configuration, handle table,
  rooms, id counter) and its answer to every request; the work that follows
  an answer outside the library is returned as a task.
- `video_source` — video sources held by the server and frame capture.
- `peer_transport` — negotiation decisions of a peer connection: queuing of
  ICE candidates, ICE restarts, deferred offers.
- `media_stream` — media streams and their audio and video tracks.
- `webrtc` — enumerations shared with the native WebRTC layer.
- `proto`, `error` — the protocol's plain-value messages and the errors.

`app/` holds the process-wide server (a global behind a mutex, a Tokio
runtime for background work, event delivery to the foreign callback), the
peer transport driving a peer connection, and the conversion of a caller's
raw buffer; the client, media and pixel libraries are reached through traits.
