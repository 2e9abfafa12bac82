//! Userspace access to GPIO lines exposed through the GPIO character device.
//!
//! The library holds the logic between a caller and the kernel: line
//! configuration with per-line overrides, request configuration, the merge of
//! both into the per-line settings of a request, the value accessors of a
//! granted request, the kernel records that ask for a request or a
//! reconfiguration, and the decoding of the kernel's chip-info, line-info,
//! edge-event and info-event records. Opening devices, issuing ioctls and reading from file
//! descriptors is left to the caller, which hands the results in as plain
//! values.

use vstd::prelude::*;

pub mod chip;
pub mod chip_info;
pub mod edge_event;
pub mod event_buffer;
pub mod info_event;
pub mod kernel_config;
pub mod line_config;
pub mod line_info;
pub mod line_request;
pub mod request_config;
pub mod text;
pub mod uapi;

pub use crate::chip::Chip;
pub use crate::chip_info::ChipInfo;
pub use crate::edge_event::EdgeEvent;
pub use crate::event_buffer::EdgeEventBuffer;
pub use crate::info_event::InfoEvent;
pub use crate::line_config::{LineConfig, LineSettings, SettingValue};
pub use crate::line_info::LineInfo;
pub use crate::line_request::{LineRequest, LineValues};
pub use crate::request_config::RequestConfig;

verus! {

/// Error codes of the library's operations.
#[derive(Clone, Copy, Debug, PartialEq, Eq, Structural)]
pub enum Error {
    /// The device could not be opened as a GPIO chip; the OS error code is
    /// kept.
    DeviceOpenFailed(i32),
    /// A name that was asked for is not assigned.
    NameNotFound(Missing),
    /// Bytes that should hold text are not valid UTF-8.
    InvalidString,
    /// A value read back from the kernel does not fit its enumeration.
    InvalidValue(ValueKind, u32),
    /// Two sequences supplied by the caller differ in length.
    ArgumentMismatch,
    /// A value was asked for that has never been configured.
    NotSet,
    /// A call into the kernel failed; the OS error code is kept.
    OperationFailed(Operation, i32),
    /// A wait expired with no event.
    OperationTimedOut,
}

/// What was missing when `Error::NameNotFound` is returned.
#[derive(Clone, Copy, Debug, PartialEq, Eq, Structural)]
pub enum Missing {
    /// No line of the chip has the name looked for.
    Line,
    /// The line has no name.
    LineName,
    /// The line has no consumer.
    LineConsumer,
}

/// The enumeration that a raw value failed to decode into.
#[derive(Clone, Copy, Debug, PartialEq, Eq, Structural)]
pub enum ValueKind {
    InfoEvent,
    EdgeEvent,
}

/// The operation that failed, carried by `Error::OperationFailed`.
#[derive(Clone, Copy, Debug, PartialEq, Eq, Structural)]
pub enum Operation {
    ChipInfo,
    ChipWaitInfoEvent,
    ChipReadInfoEvent,
    LineInfo,
    RequestLines,
    GetValue,
    GetValues,
    GetValuesSubset,
    SetValue,
    SetValues,
    SetValuesSubset,
    ReconfigureLines,
    WaitEdgeEvent,
    ReadEdgeEvent,
    BufferGetEvent,
}

/// Direction settings.
#[derive(Clone, Copy, Debug, PartialEq, Eq, Structural)]
pub enum Direction {
    /// Request the line(s), but don't change direction.
    AsIs,
    /// Direction is input - for reading the value of an externally driven GPIO line.
    Input,
    /// Direction is output - for driving the GPIO line.
    Output,
}

/// Internal bias settings.
#[derive(Clone, Copy, Debug, PartialEq, Eq, Structural)]
pub enum Bias {
    /// Don't change the bias setting when applying line config.
    AsIs,
    /// The internal bias state is unknown.
    Unknown,
    /// The internal bias is disabled.
    Disabled,
    /// The internal pull-up bias is enabled.
    PullUp,
    /// The internal pull-down bias is enabled.
    PullDown,
}

/// Drive settings.
#[derive(Clone, Copy, Debug, PartialEq, Eq, Structural)]
pub enum Drive {
    /// Drive setting is push-pull.
    PushPull,
    /// Line output is open-drain.
    OpenDrain,
    /// Line output is open-source.
    OpenSource,
}

/// Edge detection settings.
#[derive(Clone, Copy, Debug, PartialEq, Eq, Structural)]
pub enum Edge {
    /// Line edge detection is disabled.
    Disabled,
    /// Line detects rising edge events.
    Rising,
    /// Line detects falling edge events.
    Falling,
    /// Line detects both rising and falling edge events.
    Both,
}

/// The eight independent line configuration properties.
#[derive(Clone, Copy, Debug, PartialEq, Eq, Structural)]
pub enum Config {
    /// Line direction.
    Direction,
    /// Edge detection.
    EdgeDetection,
    /// Bias.
    Bias,
    /// Drive.
    Drive,
    /// Active-low setting.
    ActiveLow,
    /// Debounce period.
    DebouncePeriodUs,
    /// Event clock type.
    EventClock,
    /// Output value.
    OutputValue,
}

/// Event clock settings.
#[derive(Clone, Copy, Debug, PartialEq, Eq, Structural)]
pub enum EventClock {
    /// Line uses the monotonic clock for edge event timestamps.
    Monotonic,
    /// Line uses the realtime clock for edge event timestamps.
    Realtime,
}

/// Line status change event types.
#[derive(Clone, Copy, Debug, PartialEq, Eq, Structural)]
pub enum Event {
    /// Line has been requested.
    LineRequested,
    /// Previously requested line has been released.
    LineReleased,
    /// Line configuration has changed.
    LineConfigChanged,
}

/// Edge event types.
#[derive(Clone, Copy, Debug, PartialEq, Eq, Structural)]
pub enum LineEdgeEvent {
    /// Rising edge event.
    Rising,
    /// Falling edge event.
    Falling,
}

} // verus!
