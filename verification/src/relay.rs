//! The capture relay: what becomes of each answer of the capture feed.
//!
//! The relay runs beside the controller. It asks the feed for the next frame,
//! turns every frame into one timestamped event for the controller, asks
//! again where the feed had nothing within its wait window, and ends where the
//! feed is closed for good.

use crate::controller::{EventView, PacketEvent};
use crate::identity::{extract, frame_identity};
use vstd::prelude::*;

verus! {

/// One answer of the capture feed.
#[derive(Debug)]
pub enum FeedOutcome {
    /// A captured frame, link-layer header included.
    Frame(Vec<u8>),
    /// No frame arrived within the wait window.
    NoFrame,
    /// The feed failed for good: the device is gone or the capture broke.
    Closed,
}

/// What the relay does with one answer of the feed.
#[derive(Debug)]
pub enum RelayStep {
    /// Send this event to the controller, then ask the feed again.
    Send(PacketEvent),
    /// Ask the feed again.
    Retry,
    /// End the relay and close the channel to the controller.
    Stop,
}

/// The event that stands for `frame` captured at time `now`.
pub open spec fn frame_event(frame: Seq<u8>, now: u64) -> EventView {
    EventView { timestamp: now, sender: frame_identity(frame) }
}

/// The events that stand for `frames`, the i-th captured at `stamps[i]`: one
/// for each frame, in the order of capture.
pub open spec fn relayed(frames: Seq<Seq<u8>>, stamps: Seq<u64>) -> Seq<EventView> {
    Seq::new(frames.len(), |i: int| frame_event(frames[i], stamps[i]))
}

/// Turns a captured frame into the event sent to the controller.
///
/// Every frame gives an event. A frame without a readable sender gives an
/// event without identity.
pub fn stamp_frame(frame: &[u8], now: u64) -> (event: PacketEvent)
    ensures
        event@ == frame_event(frame@, now),
{
    PacketEvent { timestamp: now, sender_identity: extract(frame) }
}

/// Decides what the relay does with one answer of the feed, read at `now`.
pub fn relay_step(outcome: &FeedOutcome, now: u64) -> (step: RelayStep)
    ensures
        match *outcome {
            FeedOutcome::Frame(bytes) => step matches RelayStep::Send(event) && event@
                == frame_event(bytes@, now),
            FeedOutcome::NoFrame => step is Retry,
            FeedOutcome::Closed => step is Stop,
        },
{
    match outcome {
        FeedOutcome::Frame(bytes) => RelayStep::Send(stamp_frame(bytes.as_slice(), now)),
        FeedOutcome::NoFrame => RelayStep::Retry,
        FeedOutcome::Closed => RelayStep::Stop,
    }
}

} // verus!
