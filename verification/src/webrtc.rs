//! Enumerations shared with the native WebRTC layer, and the integers that
//! represent them across that boundary.
use vstd::prelude::*;

verus! {

/// Kind of media a transceiver carries.
#[derive(Clone, Copy, Debug, PartialEq, Eq, Structural)]
pub enum MediaType {
    Audio,
    Video,
    Data,
    Unsupported,
}

/// Network priority of an encoding.
#[derive(Clone, Copy, Debug, PartialEq, Eq, Structural)]
pub enum Priority {
    VeryLow,
    Low,
    Medium,
    High,
}

/// Direction of an RTP transceiver.
#[derive(Clone, Copy, Debug, PartialEq, Eq, Structural)]
pub enum RtpTransceiverDirection {
    SendRecv,
    SendOnly,
    RecvOnly,
    Inactive,
    Stopped,
}

/// The integer that represents `t` across the native boundary.
pub open spec fn media_type_repr(t: MediaType) -> i32 {
    match t {
        MediaType::Audio => 0,
        MediaType::Video => 1,
        MediaType::Data => 2,
        MediaType::Unsupported => 3,
    }
}

/// The integer that represents `p` across the native boundary.
pub open spec fn priority_repr(p: Priority) -> i32 {
    match p {
        Priority::VeryLow => 0,
        Priority::Low => 1,
        Priority::Medium => 2,
        Priority::High => 3,
    }
}

/// The integer that represents `d` across the native boundary.
pub open spec fn direction_repr(d: RtpTransceiverDirection) -> i32 {
    match d {
        RtpTransceiverDirection::SendRecv => 0,
        RtpTransceiverDirection::SendOnly => 1,
        RtpTransceiverDirection::RecvOnly => 2,
        RtpTransceiverDirection::Inactive => 3,
        RtpTransceiverDirection::Stopped => 4,
    }
}

impl MediaType {
    /// The integer that represents this value across the native boundary.
    pub fn repr(self) -> (r: i32)
        ensures
            r == media_type_repr(self),
    {
        match self {
            MediaType::Audio => 0,
            MediaType::Video => 1,
            MediaType::Data => 2,
            MediaType::Unsupported => 3,
        }
    }

    /// The value that `r` represents, if any.
    pub fn from_repr(r: i32) -> (t: Option<MediaType>)
        ensures
            t matches Some(v) ==> media_type_repr(v) == r,
            t is None <==> !(0 <= r <= 3),
    {
        match r {
            0 => Some(MediaType::Audio),
            1 => Some(MediaType::Video),
            2 => Some(MediaType::Data),
            3 => Some(MediaType::Unsupported),
            _ => None,
        }
    }
}

impl Priority {
    /// The integer that represents this value across the native boundary.
    pub fn repr(self) -> (r: i32)
        ensures
            r == priority_repr(self),
    {
        match self {
            Priority::VeryLow => 0,
            Priority::Low => 1,
            Priority::Medium => 2,
            Priority::High => 3,
        }
    }

    /// The value that `r` represents, if any.
    pub fn from_repr(r: i32) -> (p: Option<Priority>)
        ensures
            p matches Some(v) ==> priority_repr(v) == r,
            p is None <==> !(0 <= r <= 3),
    {
        match r {
            0 => Some(Priority::VeryLow),
            1 => Some(Priority::Low),
            2 => Some(Priority::Medium),
            3 => Some(Priority::High),
            _ => None,
        }
    }
}

impl RtpTransceiverDirection {
    /// The integer that represents this value across the native boundary.
    pub fn repr(self) -> (r: i32)
        ensures
            r == direction_repr(self),
    {
        match self {
            RtpTransceiverDirection::SendRecv => 0,
            RtpTransceiverDirection::SendOnly => 1,
            RtpTransceiverDirection::RecvOnly => 2,
            RtpTransceiverDirection::Inactive => 3,
            RtpTransceiverDirection::Stopped => 4,
        }
    }

    /// The value that `r` represents, if any.
    pub fn from_repr(r: i32) -> (d: Option<RtpTransceiverDirection>)
        ensures
            d matches Some(v) ==> direction_repr(v) == r,
            d is None <==> !(0 <= r <= 4),
    {
        match r {
            0 => Some(RtpTransceiverDirection::SendRecv),
            1 => Some(RtpTransceiverDirection::SendOnly),
            2 => Some(RtpTransceiverDirection::RecvOnly),
            3 => Some(RtpTransceiverDirection::Inactive),
            4 => Some(RtpTransceiverDirection::Stopped),
            _ => None,
        }
    }
}

/// Law: each value is represented by its position in its enumeration's
/// declaration, counting from 0, as for an enumeration declared
/// `#[repr(i32)]` without explicit values on the native side.
pub proof fn representations_follow_declaration_order()
    ensures
        media_type_repr(MediaType::Audio) == 0,
        media_type_repr(MediaType::Video) == 1,
        media_type_repr(MediaType::Data) == 2,
        media_type_repr(MediaType::Unsupported) == 3,
        priority_repr(Priority::VeryLow) == 0,
        priority_repr(Priority::Low) == 1,
        priority_repr(Priority::Medium) == 2,
        priority_repr(Priority::High) == 3,
        direction_repr(RtpTransceiverDirection::SendRecv) == 0,
        direction_repr(RtpTransceiverDirection::SendOnly) == 1,
        direction_repr(RtpTransceiverDirection::RecvOnly) == 2,
        direction_repr(RtpTransceiverDirection::Inactive) == 3,
        direction_repr(RtpTransceiverDirection::Stopped) == 4,
{
}

/// Law: each shared enumeration has distinct representations, so reading
/// back the integer of a value gives that value.
pub proof fn representations_round_trip(t: MediaType, p: Priority, d: RtpTransceiverDirection)
    ensures
        forall|u: MediaType| media_type_repr(u) == media_type_repr(t) ==> u == t,
        forall|q: Priority| priority_repr(q) == priority_repr(p) ==> q == p,
        forall|e: RtpTransceiverDirection| direction_repr(e) == direction_repr(d) ==> e == d,
{
}

} // verus!
