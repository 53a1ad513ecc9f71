use vstd::prelude::*;

verus! {

/// Why a kernel channel operation failed.
#[derive(Debug, Clone, Copy, PartialEq, Eq, Structural)]
pub enum ChannelError {
    SendFailed,
    Disconnected,
    NotFound,
    CapacityExceeded,
}

/// The text of a channel error.
pub open spec fn channel_error_text(e: ChannelError) -> Seq<char> {
    match e {
        ChannelError::SendFailed => "Failed to send message"@,
        ChannelError::Disconnected => "Channel disconnected"@,
        ChannelError::NotFound => "Channel not found"@,
        ChannelError::CapacityExceeded => "Channel capacity exceeded"@,
    }
}

impl ChannelError {
    pub fn message(&self) -> (r: &'static str)
        ensures
            r@ == channel_error_text(*self),
    {
        match self {
            ChannelError::SendFailed => "Failed to send message",
            ChannelError::Disconnected => "Channel disconnected",
            ChannelError::NotFound => "Channel not found",
            ChannelError::CapacityExceeded => "Channel capacity exceeded",
        }
    }
}

/// One shot's outcome as carried on a kernel measurement channel.
#[derive(Debug, Clone)]
pub struct MeasurementStreamEvent {
    pub shot_index: usize,
    pub measurement_bitstring: Vec<u8>,
    pub timestamp_nanoseconds: u64,
    pub is_final: bool,
}

} // verus!
