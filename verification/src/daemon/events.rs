//! Live detections pushed to event-stream subscribers.

use vstd::prelude::*;

use crate::analysis::analyzer::{Event, PacketTimestamp, Position};

verus! {

/// Capacity of the broadcast buffer for live events. Warnings are
/// infrequent, so this is generous; a subscriber that falls this far behind
/// skips the missed events.
pub const EVENT_CHANNEL_CAPACITY: usize = 256;

/// A single live detection pushed to subscribers: one warning event plus the
/// capture context (timestamp, position) needed to place it.
#[derive(Debug)]
pub struct LiveEvent {
    /// Packet (modem clock) timestamp of the detection, if known.
    pub timestamp: Option<PacketTimestamp>,
    /// GPS position in effect when the detection fired, if a fix was
    /// available.
    pub position: Option<Position>,
    /// The warning event, with severity, message, analyzer and serving cell.
    pub event: Event,
}

} // verus!
