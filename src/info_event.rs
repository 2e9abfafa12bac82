//! Line status watch events.

use vstd::prelude::*;

use crate::line_info::{line_info_at, same_line_info, LineInfo};
use crate::uapi::{
    le_u32, le_u64, read_u32, read_u64, INFO_EVENT_RECORD_SIZE, LINE_CHANGED_CONFIG,
    LINE_CHANGED_RELEASED, LINE_CHANGED_REQUESTED,
};
use crate::{Error, Event, ValueKind};

verus! {

/// Line status watch events
///
/// Each info event holds its type and timestamp, and a snapshot of the line's
/// state at the moment of the event.
#[derive(Debug)]
pub struct InfoEvent {
    /// The kernel's value for the event type.
    pub raw_type: u32,
    /// When the event happened, in nanoseconds of the monotonic clock.
    pub timestamp_ns: u64,
    /// The line's state at the moment of the event.
    pub info: LineInfo,
}

/// The event type that a raw kernel value stands for.
pub open spec fn info_event_type(raw: u32) -> Result<Event, Error> {
    if raw == LINE_CHANGED_REQUESTED {
        Ok(Event::LineRequested)
    } else if raw == LINE_CHANGED_RELEASED {
        Ok(Event::LineReleased)
    } else if raw == LINE_CHANGED_CONFIG {
        Ok(Event::LineConfigChanged)
    } else {
        Err(Error::InvalidValue(ValueKind::InfoEvent, raw))
    }
}

/// Whether `e` holds the event that the info-event record at `at` in `b`
/// describes.
pub open spec fn info_event_at(e: InfoEvent, b: Seq<u8>, at: int) -> bool {
    &&& line_info_at(e.info, b, at)
    &&& e.timestamp_ns == le_u64(b, at + 256)
    &&& e.raw_type == le_u32(b, at + 264)
}

impl InfoEvent {
    /// Decode the info-event record that starts at `at` in `b`.
    pub fn from_record(b: &[u8], at: usize) -> (r: InfoEvent)
        requires
            at + INFO_EVENT_RECORD_SIZE <= b@.len(),
        ensures
            info_event_at(r, b@, at as int),
    {
        let _len = b.len();
        InfoEvent {
            raw_type: read_u32(b, at + 264),
            timestamp_ns: read_u64(b, at + 256),
            info: LineInfo::from_record(b, at),
        }
    }

    /// Get the event type of the status change event.
    pub fn get_event_type(&self) -> (r: Result<Event, Error>)
        ensures
            r == info_event_type(self.raw_type),
    {
        if self.raw_type == LINE_CHANGED_REQUESTED {
            Ok(Event::LineRequested)
        } else if self.raw_type == LINE_CHANGED_RELEASED {
            Ok(Event::LineReleased)
        } else if self.raw_type == LINE_CHANGED_CONFIG {
            Ok(Event::LineConfigChanged)
        } else {
            Err(Error::InvalidValue(ValueKind::InfoEvent, self.raw_type))
        }
    }

    /// Get the timestamp of the event, in nanoseconds of the monotonic clock.
    pub fn get_timestamp(&self) -> (r: u64)
        ensures
            r == self.timestamp_ns,
    {
        self.timestamp_ns
    }

    /// Get the line-info snapshot carried by the event. It holds no watch of
    /// its own.
    pub fn line_info(&self) -> (r: Result<LineInfo, Error>)
        ensures
            r matches Ok(i) && same_line_info(i, self.info),
    {
        Ok(self.info.copy())
    }
}

} // verus!
