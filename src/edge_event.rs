//! Edge events: one signal transition on a requested line.

use vstd::prelude::*;

use crate::uapi::{le_u32, le_u64, read_u32, read_u64, EDGE_EVENT_RECORD_SIZE, EVENT_FALLING_EDGE, EVENT_RISING_EDGE};
use crate::{Error, LineEdgeEvent, ValueKind};

verus! {

/// Line edge events handling
///
/// An edge event holds the event type, the timestamp and the offset of the
/// line on which the event occurred, and two sequence numbers: one over all
/// lines of the request and one for this line only.
#[derive(Clone, Copy, Debug, PartialEq, Eq, Structural)]
pub struct EdgeEvent {
    pub raw_type: u32,
    pub timestamp_ns: u64,
    pub line_offset: u32,
    pub global_seqno: u64,
    pub line_seqno: u64,
}

/// The edge-event type that a raw kernel value stands for.
pub open spec fn edge_event_type(raw: u32) -> Result<LineEdgeEvent, Error> {
    if raw == EVENT_RISING_EDGE {
        Ok(LineEdgeEvent::Rising)
    } else if raw == EVENT_FALLING_EDGE {
        Ok(LineEdgeEvent::Falling)
    } else {
        Err(Error::InvalidValue(ValueKind::EdgeEvent, raw))
    }
}

/// The edge event held by the record that starts at `at` in `b`.
pub open spec fn edge_event_at(b: Seq<u8>, at: int) -> EdgeEvent {
    EdgeEvent {
        raw_type: le_u32(b, at + 8),
        timestamp_ns: le_u64(b, at),
        line_offset: le_u32(b, at + 12),
        global_seqno: le_u32(b, at + 16) as u64,
        line_seqno: le_u32(b, at + 20) as u64,
    }
}

impl EdgeEvent {
    /// Decode the record that starts at `at` in `b`.
    pub fn from_record(b: &[u8], at: usize) -> (r: EdgeEvent)
        requires
            at + EDGE_EVENT_RECORD_SIZE <= b@.len(),
        ensures
            r == edge_event_at(b@, at as int),
    {
        let _len = b.len();
        EdgeEvent {
            raw_type: read_u32(b, at + 8),
            timestamp_ns: read_u64(b, at),
            line_offset: read_u32(b, at + 12),
            global_seqno: read_u32(b, at + 16) as u64,
            line_seqno: read_u32(b, at + 20) as u64,
        }
    }

    /// Get the event type.
    pub fn get_event_type(&self) -> (r: Result<LineEdgeEvent, Error>)
        ensures
            r == edge_event_type(self.raw_type),
    {
        if self.raw_type == EVENT_RISING_EDGE {
            Ok(LineEdgeEvent::Rising)
        } else if self.raw_type == EVENT_FALLING_EDGE {
            Ok(LineEdgeEvent::Falling)
        } else {
            Err(Error::InvalidValue(ValueKind::EdgeEvent, self.raw_type))
        }
    }

    /// Get the timestamp of the event, in nanoseconds.
    pub fn get_timestamp(&self) -> (r: u64)
        ensures
            r == self.timestamp_ns,
    {
        self.timestamp_ns
    }

    /// Get the offset of the line on which the event was triggered.
    pub fn get_line_offset(&self) -> (r: u32)
        ensures
            r == self.line_offset,
    {
        self.line_offset
    }

    /// Get the global sequence number of the event: its number among the
    /// events of all lines of the request.
    pub fn get_global_seqno(&self) -> (r: u64)
        ensures
            r == self.global_seqno,
    {
        self.global_seqno
    }

    /// Get the event sequence number specific to the line, within the
    /// lifetime of the request.
    pub fn get_line_seqno(&self) -> (r: u64)
        ensures
            r == self.line_seqno,
    {
        self.line_seqno
    }
}

} // verus!
