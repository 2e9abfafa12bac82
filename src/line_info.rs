//! Line info: an immutable snapshot of a line's state as the kernel reports
//! it.

use vstd::prelude::*;
use vstd::slice::slice_subrange;
use vstd::utf8::{decode_utf8, valid_utf8};

use crate::text::{field_bytes, field_text, text_of};
use crate::uapi::{
    le_u32, le_u64, read_u32, read_u64, ATTR_ID_DEBOUNCE, FLAG_ACTIVE_LOW, FLAG_BIAS_DISABLED,
    FLAG_BIAS_PULL_DOWN, FLAG_BIAS_PULL_UP, FLAG_EDGE_FALLING, FLAG_EDGE_RISING,
    FLAG_EVENT_CLOCK_REALTIME, FLAG_OPEN_DRAIN, FLAG_OPEN_SOURCE, FLAG_OUTPUT, FLAG_USED,
    LINE_INFO_RECORD_SIZE, NUM_ATTRS_MAX,
};
use crate::{Bias, Direction, Drive, Edge, Error, EventClock, Missing};

verus! {

/// Line info
///
/// Holds all the publicly available information about a line, which does not
/// include its value: the line must be requested to access the value.
#[derive(Debug)]
pub struct LineInfo {
    /// Offset of the line within its chip.
    pub offset: u32,
    /// The line's name, empty if it has none.
    pub name: Vec<u8>,
    /// The line's consumer, empty if it has none.
    pub consumer: Vec<u8>,
    /// The kernel's flag bits for the line.
    pub flags: u64,
    /// The debounce period in microseconds, if the line is debounced.
    pub debounce_period_us: Option<u32>,
}

/// Whether the flag `bit` is set in `flags`.
pub open spec fn has_flag(flags: u64, bit: u64) -> bool {
    flags & bit != 0
}

/// The direction that a line's flags report.
pub open spec fn direction_of(flags: u64) -> Direction {
    if has_flag(flags, FLAG_OUTPUT) {
        Direction::Output
    } else {
        Direction::Input
    }
}

/// The bias that a line's flags report.
pub open spec fn bias_of(flags: u64) -> Bias {
    if has_flag(flags, FLAG_BIAS_PULL_UP) {
        Bias::PullUp
    } else if has_flag(flags, FLAG_BIAS_PULL_DOWN) {
        Bias::PullDown
    } else if has_flag(flags, FLAG_BIAS_DISABLED) {
        Bias::Disabled
    } else {
        Bias::Unknown
    }
}

/// The drive that a line's flags report.
pub open spec fn drive_of(flags: u64) -> Drive {
    if has_flag(flags, FLAG_OPEN_DRAIN) {
        Drive::OpenDrain
    } else if has_flag(flags, FLAG_OPEN_SOURCE) {
        Drive::OpenSource
    } else {
        Drive::PushPull
    }
}

/// The edge detection that a line's flags report.
pub open spec fn edge_of(flags: u64) -> Edge {
    if has_flag(flags, FLAG_EDGE_RISING) && has_flag(flags, FLAG_EDGE_FALLING) {
        Edge::Both
    } else if has_flag(flags, FLAG_EDGE_RISING) {
        Edge::Rising
    } else if has_flag(flags, FLAG_EDGE_FALLING) {
        Edge::Falling
    } else {
        Edge::Disabled
    }
}

/// The event clock that a line's flags report.
pub open spec fn event_clock_of(flags: u64) -> EventClock {
    if has_flag(flags, FLAG_EVENT_CLOCK_REALTIME) {
        EventClock::Realtime
    } else {
        EventClock::Monotonic
    }
}

/// The debounce period among the first `n` attributes of the line-info record
/// at `at`: that of the last debounce attribute, if there is one.
pub open spec fn debounce_in_attrs(b: Seq<u8>, at: int, n: int) -> Option<u32>
    decreases n,
{
    if n <= 0 {
        None
    } else if le_u32(b, at + 80 + 16 * (n - 1)) == ATTR_ID_DEBOUNCE {
        Some(le_u32(b, at + 80 + 16 * (n - 1) + 8))
    } else {
        debounce_in_attrs(b, at, n - 1)
    }
}

/// How many attributes of the line-info record at `at` are read: the count
/// it gives, but no more than the record holds.
pub open spec fn attr_count(b: Seq<u8>, at: int) -> int {
    if le_u32(b, at + 68) <= NUM_ATTRS_MAX {
        le_u32(b, at + 68) as int
    } else {
        NUM_ATTRS_MAX as int
    }
}

/// Whether `i` holds the snapshot that the line-info record at `at` in `b`
/// describes.
pub open spec fn line_info_at(i: LineInfo, b: Seq<u8>, at: int) -> bool {
    &&& i.name@ == field_text(b.subrange(at, at + 32))
    &&& i.consumer@ == field_text(b.subrange(at + 32, at + 64))
    &&& i.offset == le_u32(b, at + 64)
    &&& i.flags == le_u64(b, at + 72)
    &&& i.debounce_period_us == debounce_in_attrs(b, at, attr_count(b, at))
}

/// Whether two snapshots hold the same state.
pub open spec fn same_line_info(a: LineInfo, b: LineInfo) -> bool {
    &&& a.offset == b.offset
    &&& a.name@ == b.name@
    &&& a.consumer@ == b.consumer@
    &&& a.flags == b.flags
    &&& a.debounce_period_us == b.debounce_period_us
}

/// The bytes of an optional name: `NameNotFound` where it is empty, the text
/// it holds otherwise.
pub open spec fn named_text_result(bytes: Seq<u8>, which: Missing, r: Result<String, Error>) -> bool {
    &&& bytes.len() == 0 ==> r == Err::<String, Error>(Error::NameNotFound(which))
    &&& bytes.len() > 0 && valid_utf8(bytes) ==> (r matches Ok(s) && s@ == decode_utf8(bytes))
    &&& bytes.len() > 0 && !valid_utf8(bytes) ==> r == Err::<String, Error>(Error::InvalidString)
}

/// The text of `bytes`, or `NameNotFound(which)` if there is none.
pub fn named_text(bytes: &Vec<u8>, which: Missing) -> (r: Result<String, Error>)
    ensures
        named_text_result(bytes@, which, r),
{
    if bytes.len() == 0 {
        Err(Error::NameNotFound(which))
    } else {
        text_of(vstd::slice::slice_to_vec(bytes.as_slice()))
    }
}

/// Copy the bytes of `b` into a new vector.
pub fn copy_bytes(b: &Vec<u8>) -> (r: Vec<u8>)
    ensures
        r@ == b@,
{
    vstd::slice::slice_to_vec(b.as_slice())
}

impl LineInfo {
    /// Decode the line-info record that starts at `at` in `b`.
    pub fn from_record(b: &[u8], at: usize) -> (r: LineInfo)
        requires
            at + LINE_INFO_RECORD_SIZE <= b@.len(),
        ensures
            line_info_at(r, b@, at as int),
    {
        let _len = b.len();
        let name = field_bytes(slice_subrange(b, at, at + 32));
        let consumer = field_bytes(slice_subrange(b, at + 32, at + 64));
        let count = read_u32(b, at + 68);
        let n: usize = if count as usize <= NUM_ATTRS_MAX {
            count as usize
        } else {
            NUM_ATTRS_MAX
        };
        let mut debounce: Option<u32> = None;
        let mut k: usize = 0;
        while k < n
            invariant
                n <= NUM_ATTRS_MAX,
                b@.len() <= usize::MAX,
                n == attr_count(b@, at as int),
                at + LINE_INFO_RECORD_SIZE <= b@.len(),
                k <= n,
                debounce == debounce_in_attrs(b@, at as int, k as int),
            decreases n - k,
        {
            let base = at + 80 + 16 * k;
            if read_u32(b, base) == ATTR_ID_DEBOUNCE {
                debounce = Some(read_u32(b, base + 8));
            }
            k = k + 1;
        }
        LineInfo {
            offset: read_u32(b, at + 64),
            name,
            consumer,
            flags: read_u64(b, at + 72),
            debounce_period_us: debounce,
        }
    }

    /// A copy of this snapshot.
    pub fn copy(&self) -> (r: LineInfo)
        ensures
            same_line_info(r, *self),
    {
        LineInfo {
            offset: self.offset,
            name: copy_bytes(&self.name),
            consumer: copy_bytes(&self.consumer),
            flags: self.flags,
            debounce_period_us: self.debounce_period_us,
        }
    }

    /// Get the offset of the line within the GPIO chip.
    pub fn get_offset(&self) -> (r: u32)
        ensures
            r == self.offset,
    {
        self.offset
    }

    /// Get the line's name; `NameNotFound` if it has none.
    pub fn get_name(&self) -> (r: Result<String, Error>)
        ensures
            named_text_result(self.name@, Missing::LineName, r),
    {
        named_text(&self.name, Missing::LineName)
    }

    /// Returns true if the line is in use, false otherwise.
    pub fn is_used(&self) -> (r: bool)
        ensures
            r == has_flag(self.flags, FLAG_USED),
    {
        self.flags & FLAG_USED != 0
    }

    /// Get the line's consumer name; `NameNotFound` if it has none.
    pub fn get_consumer(&self) -> (r: Result<String, Error>)
        ensures
            named_text_result(self.consumer@, Missing::LineConsumer, r),
    {
        named_text(&self.consumer, Missing::LineConsumer)
    }

    /// Get the line's direction.
    pub fn get_direction(&self) -> (r: Result<Direction, Error>)
        ensures
            r == Ok::<Direction, Error>(direction_of(self.flags)),
    {
        if self.flags & FLAG_OUTPUT != 0 {
            Ok(Direction::Output)
        } else {
            Ok(Direction::Input)
        }
    }

    /// Returns true if the line is "active-low", false otherwise.
    pub fn is_active_low(&self) -> (r: bool)
        ensures
            r == has_flag(self.flags, FLAG_ACTIVE_LOW),
    {
        self.flags & FLAG_ACTIVE_LOW != 0
    }

    /// Get the line's bias setting.
    pub fn get_bias(&self) -> (r: Result<Bias, Error>)
        ensures
            r == Ok::<Bias, Error>(bias_of(self.flags)),
    {
        if self.flags & FLAG_BIAS_PULL_UP != 0 {
            Ok(Bias::PullUp)
        } else if self.flags & FLAG_BIAS_PULL_DOWN != 0 {
            Ok(Bias::PullDown)
        } else if self.flags & FLAG_BIAS_DISABLED != 0 {
            Ok(Bias::Disabled)
        } else {
            Ok(Bias::Unknown)
        }
    }

    /// Get the line's drive setting.
    pub fn get_drive(&self) -> (r: Result<Drive, Error>)
        ensures
            r == Ok::<Drive, Error>(drive_of(self.flags)),
    {
        if self.flags & FLAG_OPEN_DRAIN != 0 {
            Ok(Drive::OpenDrain)
        } else if self.flags & FLAG_OPEN_SOURCE != 0 {
            Ok(Drive::OpenSource)
        } else {
            Ok(Drive::PushPull)
        }
    }

    /// Get the current edge detection setting of the line.
    pub fn get_edge_detection(&self) -> (r: Result<Edge, Error>)
        ensures
            r == Ok::<Edge, Error>(edge_of(self.flags)),
    {
        let rising = self.flags & FLAG_EDGE_RISING != 0;
        let falling = self.flags & FLAG_EDGE_FALLING != 0;
        if rising && falling {
            Ok(Edge::Both)
        } else if rising {
            Ok(Edge::Rising)
        } else if falling {
            Ok(Edge::Falling)
        } else {
            Ok(Edge::Disabled)
        }
    }

    /// Get the event clock used for the line's edge event timestamps.
    pub fn get_event_clock(&self) -> (r: Result<EventClock, Error>)
        ensures
            r == Ok::<EventClock, Error>(event_clock_of(self.flags)),
    {
        if self.flags & FLAG_EVENT_CLOCK_REALTIME != 0 {
            Ok(EventClock::Realtime)
        } else {
            Ok(EventClock::Monotonic)
        }
    }

    /// Returns true if the line is debounced (either by hardware or by the
    /// kernel software debouncer), false otherwise.
    pub fn is_debounced(&self) -> (r: bool)
        ensures
            r == self.debounce_period_us.is_some(),
    {
        self.debounce_period_us.is_some()
    }

    /// Get the debounce period of the line in microseconds; 0 if it is not
    /// debounced.
    pub fn get_debounce_period(&self) -> (r: u64)
        ensures
            r == (match self.debounce_period_us {
                Some(p) => p as u64,
                None => 0,
            }),
    {
        match self.debounce_period_us {
            Some(p) => p as u64,
            None => 0,
        }
    }
}

} // verus!
