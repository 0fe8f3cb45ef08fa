//! Frame sources: where camera frames come from, and how their byte streams
//! are cut into frames.
//!
//! Every source runs for the life of the process. On any error of its
//! connection it waits for [`RECONNECT_DELAY`] and connects again; a frame
//! that cannot be decoded is dropped and the source goes on.

use vstd::prelude::*;
use crate::structs::Timestamp;

pub mod http_camera_source;
pub mod serial_camera_source;
pub mod uvc_camera_source;

verus! {

/// How long a source waits before it connects again: one second.
pub const RECONNECT_DELAY: u64 = 1_000_000_000;

/// One second, in the unit of timestamps.
pub const ONE_SECOND: u64 = 1_000_000_000;

/// What went wrong in a source, or what it received.
#[derive(Debug, Clone, Copy, PartialEq, Eq, Structural)]
pub enum SourceEvent {
    /// The connection could not be made, or was refused.
    ConnectFailed,
    /// The stream broke: a read failed, stalled or ended.
    StreamFailed,
    /// A frame arrived but could not be decoded.
    FrameUndecodable,
    /// A frame arrived and was decoded.
    FrameDecoded,
}

/// What a source does next.
#[derive(Debug, Clone, Copy, PartialEq, Eq, Structural)]
pub enum SourceAction {
    /// Wait for [`RECONNECT_DELAY`], then connect again.
    Reconnect,
    /// Drop the frame and read on.
    Skip,
    /// Hand the frame to the dispatcher and read on.
    Dispatch,
}

/// What a source does after `event`. A source never gives up: every
/// failure of the connection leads to a new one.
pub fn next_action(event: SourceEvent) -> (action: SourceAction)
    ensures
        action == match event {
            SourceEvent::ConnectFailed | SourceEvent::StreamFailed => SourceAction::Reconnect,
            SourceEvent::FrameUndecodable => SourceAction::Skip,
            SourceEvent::FrameDecoded => SourceAction::Dispatch,
        },
{
    match event {
        SourceEvent::ConnectFailed | SourceEvent::StreamFailed => SourceAction::Reconnect,
        SourceEvent::FrameUndecodable => SourceAction::Skip,
        SourceEvent::FrameDecoded => SourceAction::Dispatch,
    }
}

/// Counts the frames of a source, second by second.
#[derive(Clone, Copy, Debug)]
pub struct FpsCounter {
    /// When the running second began.
    pub last_second: Timestamp,
    /// The frames counted since then; the count stops at the largest
    /// number it can hold.
    pub frames_since_last_second: u32,
}

impl FpsCounter {
    /// A counter whose first second begins at `now`.
    pub fn new(now: Timestamp) -> (counter: FpsCounter)
        ensures
            counter.last_second == now,
            counter.frames_since_last_second == 0,
    {
        FpsCounter { last_second: now, frames_since_last_second: 0 }
    }

    /// Whether a full second has passed at `now` since the running second
    /// began.
    pub open spec fn second_is_over(self, now: Timestamp) -> bool {
        now - self.last_second >= ONE_SECOND
    }

    /// Counts a frame that arrived at `now`. Where the running second is
    /// over, returns the number of frames counted in it, to be reported, and
    /// begins a new second at `now` with this frame as its first.
    pub fn update_fps(&mut self, now: Timestamp) -> (report: Option<u32>)
        ensures
            report == if old(self).second_is_over(now) {
                Some(old(self).frames_since_last_second)
            } else {
                None
            },
            final(self).last_second == if old(self).second_is_over(now) {
                now
            } else {
                old(self).last_second
            },
            final(self).frames_since_last_second == if old(self).second_is_over(now) {
                1
            } else if old(self).frames_since_last_second == u32::MAX {
                u32::MAX as int
            } else {
                old(self).frames_since_last_second + 1
            },
    {
        let mut report = None;
        if now >= self.last_second && now - self.last_second >= ONE_SECOND {
            report = Some(self.frames_since_last_second);
            self.last_second = now;
            self.frames_since_last_second = 0;
        }
        if self.frames_since_last_second < u32::MAX {
            self.frames_since_last_second += 1;
        }
        report
    }
}

} // verus!
