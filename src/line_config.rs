//! Line configuration: default settings plus sparse per-line overrides.

use vstd::prelude::*;

use crate::{Bias, Config, Direction, Drive, Edge, Error, EventClock};

verus! {

/// The effective settings of one line.
#[derive(Clone, Copy, Debug, PartialEq, Eq, Structural)]
pub struct LineSettings {
    pub direction: Direction,
    pub edge_detection: Edge,
    pub bias: Bias,
    pub drive: Drive,
    pub active_low: bool,
    pub debounce_period_us: u64,
    pub event_clock: EventClock,
    /// Always 0 or 1.
    pub output_value: u32,
}

/// The value of one property, as held by a per-line override.
#[derive(Clone, Copy, Debug, PartialEq, Eq, Structural)]
pub enum SettingValue {
    Direction(Direction),
    EdgeDetection(Edge),
    Bias(Bias),
    Drive(Drive),
    ActiveLow(bool),
    DebouncePeriodUs(u64),
    EventClock(EventClock),
    OutputValue(u32),
}

impl SettingValue {
    /// The property this value belongs to.
    pub open spec fn kind(self) -> Config {
        match self {
            SettingValue::Direction(_) => Config::Direction,
            SettingValue::EdgeDetection(_) => Config::EdgeDetection,
            SettingValue::Bias(_) => Config::Bias,
            SettingValue::Drive(_) => Config::Drive,
            SettingValue::ActiveLow(_) => Config::ActiveLow,
            SettingValue::DebouncePeriodUs(_) => Config::DebouncePeriodUs,
            SettingValue::EventClock(_) => Config::EventClock,
            SettingValue::OutputValue(_) => Config::OutputValue,
        }
    }

    fn get_kind(&self) -> (r: Config)
        ensures
            r == self.kind(),
    {
        match self {
            SettingValue::Direction(_) => Config::Direction,
            SettingValue::EdgeDetection(_) => Config::EdgeDetection,
            SettingValue::Bias(_) => Config::Bias,
            SettingValue::Drive(_) => Config::Drive,
            SettingValue::ActiveLow(_) => Config::ActiveLow,
            SettingValue::DebouncePeriodUs(_) => Config::DebouncePeriodUs,
            SettingValue::EventClock(_) => Config::EventClock,
            SettingValue::OutputValue(_) => Config::OutputValue,
        }
    }
}

/// An output value as stored: any nonzero value means active.
pub open spec fn output_level(value: u32) -> u32 {
    if value == 0 {
        0
    } else {
        1
    }
}

impl LineSettings {
    /// The settings of a fresh configuration.
    pub open spec fn initial() -> LineSettings {
        LineSettings {
            direction: Direction::AsIs,
            edge_detection: Edge::Disabled,
            bias: Bias::AsIs,
            drive: Drive::PushPull,
            active_low: false,
            debounce_period_us: 0,
            event_clock: EventClock::Monotonic,
            output_value: 0,
        }
    }

    /// These settings with the property of `v` replaced by `v`.
    pub open spec fn with(self, v: SettingValue) -> LineSettings {
        match v {
            SettingValue::Direction(d) => LineSettings { direction: d, ..self },
            SettingValue::EdgeDetection(e) => LineSettings { edge_detection: e, ..self },
            SettingValue::Bias(b) => LineSettings { bias: b, ..self },
            SettingValue::Drive(d) => LineSettings { drive: d, ..self },
            SettingValue::ActiveLow(a) => LineSettings { active_low: a, ..self },
            SettingValue::DebouncePeriodUs(p) => LineSettings { debounce_period_us: p, ..self },
            SettingValue::EventClock(c) => LineSettings { event_clock: c, ..self },
            SettingValue::OutputValue(o) => LineSettings { output_value: o, ..self },
        }
    }

    /// The value these settings hold for the property `kind`.
    pub open spec fn value_of(self, kind: Config) -> SettingValue {
        match kind {
            Config::Direction => SettingValue::Direction(self.direction),
            Config::EdgeDetection => SettingValue::EdgeDetection(self.edge_detection),
            Config::Bias => SettingValue::Bias(self.bias),
            Config::Drive => SettingValue::Drive(self.drive),
            Config::ActiveLow => SettingValue::ActiveLow(self.active_low),
            Config::DebouncePeriodUs => SettingValue::DebouncePeriodUs(self.debounce_period_us),
            Config::EventClock => SettingValue::EventClock(self.event_clock),
            Config::OutputValue => SettingValue::OutputValue(self.output_value),
        }
    }

    fn initial_settings() -> (r: LineSettings)
        ensures
            r == LineSettings::initial(),
    {
        LineSettings {
            direction: Direction::AsIs,
            edge_detection: Edge::Disabled,
            bias: Bias::AsIs,
            drive: Drive::PushPull,
            active_low: false,
            debounce_period_us: 0,
            event_clock: EventClock::Monotonic,
            output_value: 0,
        }
    }

    fn apply(self, v: SettingValue) -> (r: LineSettings)
        ensures
            r == self.with(v),
    {
        let mut r = self;
        match v {
            SettingValue::Direction(d) => r.direction = d,
            SettingValue::EdgeDetection(e) => r.edge_detection = e,
            SettingValue::Bias(b) => r.bias = b,
            SettingValue::Drive(d) => r.drive = d,
            SettingValue::ActiveLow(a) => r.active_low = a,
            SettingValue::DebouncePeriodUs(p) => r.debounce_period_us = p,
            SettingValue::EventClock(c) => r.event_clock = c,
            SettingValue::OutputValue(o) => r.output_value = o,
        }
        r
    }
}

/// The overrides `m` after the output values of the first `n` pairs of
/// (`offsets`, `values`) have been set, in order.
pub open spec fn with_output_values(
    m: Map<(u32, Config), SettingValue>,
    offsets: Seq<u32>,
    values: Seq<i32>,
    n: nat,
) -> Map<(u32, Config), SettingValue>
    decreases n,
{
    if n == 0 {
        m
    } else {
        with_output_values(m, offsets, values, (n - 1) as nat).insert(
            (offsets[n - 1], Config::OutputValue),
            SettingValue::OutputValue(if values[n - 1] == 0 { 0 } else { 1 }),
        )
    }
}

/// Line configuration objects.
///
/// A configuration holds one default value for each of the eight line
/// properties and a sparse table of per-line overrides. When the
/// configuration is used in a request, the override for an (offset, property)
/// pair takes precedence over the default; otherwise the default applies.
/// Changing the configuration has no effect on any line until it is used in a
/// request or a reconfiguration. The mutators never fail.
pub struct LineConfig {
    defaults: LineSettings,
    entries: Vec<(u32, SettingValue)>,
    table: Ghost<Map<(u32, Config), SettingValue>>,
}

/// The (offset, property) pair that an override entry is stored under.
pub open spec fn entry_key(e: (u32, SettingValue)) -> (u32, Config) {
    (e.0, e.1.kind())
}

impl LineConfig {
    /// The default settings.
    pub closed spec fn defaults(self) -> LineSettings {
        self.defaults
    }

    /// The overrides, keyed by (offset, property).
    pub closed spec fn overrides(self) -> Map<(u32, Config), SettingValue> {
        self.table@
    }

    /// The entries hold one override per key, exactly those of the table.
    pub closed spec fn wf(self) -> bool {
        &&& forall|i: int, j: int|
            0 <= i < j < self.entries@.len() ==> entry_key(self.entries@[i]) != entry_key(
                self.entries@[j],
            )
        &&& forall|i: int|
            0 <= i < self.entries@.len() ==> #[trigger] self.table@.contains_key(
                entry_key(self.entries@[i]),
            ) && self.table@[entry_key(self.entries@[i])] == self.entries@[i].1
        &&& forall|k: (u32, Config)|
            #[trigger] self.table@.contains_key(k) ==> exists|i: int|
                0 <= i < self.entries@.len() && entry_key(self.entries@[i]) == k
        &&& forall|i: int|
            0 <= i < self.entries@.len() ==> ((#[trigger] self.entries@[i]).1 matches SettingValue::OutputValue(v)
                ==> output_level(v) == v)
        &&& output_level(self.defaults.output_value) == self.defaults.output_value
    }

    /// `s` with the override for (offset, kind) laid over it, if there is one.
    pub open spec fn overlay(self, s: LineSettings, offset: u32, kind: Config) -> LineSettings {
        if self.overrides().contains_key((offset, kind)) {
            s.with(self.overrides()[(offset, kind)])
        } else {
            s
        }
    }

    /// The settings the line at `offset` gets if this configuration is used
    /// in a request: each overridden property takes its override, every other
    /// one the current default.
    pub open spec fn settings_at(self, offset: u32) -> LineSettings {
        let s0 = self.defaults();
        let s1 = self.overlay(s0, offset, Config::Direction);
        let s2 = self.overlay(s1, offset, Config::EdgeDetection);
        let s3 = self.overlay(s2, offset, Config::Bias);
        let s4 = self.overlay(s3, offset, Config::Drive);
        let s5 = self.overlay(s4, offset, Config::ActiveLow);
        let s6 = self.overlay(s5, offset, Config::DebouncePeriodUs);
        let s7 = self.overlay(s6, offset, Config::EventClock);
        self.overlay(s7, offset, Config::OutputValue)
    }

    /// The settings of the lines at `offsets`, in order.
    pub open spec fn merged(self, offsets: Seq<u32>) -> Seq<LineSettings> {
        Seq::new(offsets.len(), |i: int| self.settings_at(offsets[i]))
    }

    /// Every stored override belongs to the property it is keyed under, and
    /// every stored output value is 0 or 1.
    pub proof fn lemma_override_kinds(self, k: (u32, Config))
        requires
            self.wf(),
            self.overrides().contains_key(k),
        ensures
            self.overrides()[k].kind() == k.1,
            self.overrides()[k] matches SettingValue::OutputValue(v) ==> output_level(v) == v,
    {
        let i = choose|i: int| 0 <= i < self.entries@.len() && entry_key(self.entries@[i]) == k;
        assert(self.table@.contains_key(entry_key(self.entries@[i])));
    }

    /// Create a new line config object holding the documented defaults and no
    /// overrides.
    pub fn new() -> (r: Result<Self, Error>)
        ensures
            r matches Ok(c) && c.wf() && c.defaults() == LineSettings::initial()
                && c.overrides() == Map::<(u32, Config), SettingValue>::empty(),
    {
        Ok(LineConfig {
            defaults: LineSettings::initial_settings(),
            entries: Vec::new(),
            table: Ghost(Map::empty()),
        })
    }

    /// Set the default direction.
    pub fn set_direction_default(&mut self, direction: Direction)
        requires
            old(self).wf(),
        ensures
            final(self).wf(),
            final(self).overrides() == old(self).overrides(),
            final(self).defaults() == old(self).defaults().with(SettingValue::Direction(direction)),
    {
        self.defaults.direction = direction;
    }

    /// Set the direction for a single line.
    pub fn set_direction_override(&mut self, direction: Direction, offset: u32)
        requires
            old(self).wf(),
        ensures
            final(self).wf(),
            final(self).defaults() == old(self).defaults(),
            final(self).overrides() == old(self).overrides().insert(
                (offset, Config::Direction),
                SettingValue::Direction(direction),
            ),
    {
        self.put(offset, SettingValue::Direction(direction));
    }

    /// Clear the direction override for a single line.
    pub fn clear_direction_override(&mut self, offset: u32)
        requires
            old(self).wf(),
        ensures
            final(self).wf(),
            final(self).defaults() == old(self).defaults(),
            final(self).overrides() == old(self).overrides().remove((offset, Config::Direction)),
    {
        self.remove(offset, Config::Direction);
    }

    /// Check if the direction is overridden for a line.
    pub fn direction_is_overridden(&self, offset: u32) -> (r: bool)
        requires
            self.wf(),
        ensures
            r == self.overrides().contains_key((offset, Config::Direction)),
    {
        self.lookup(offset, Config::Direction).is_some()
    }

    /// Get the default direction.
    pub fn get_direction_default(&self) -> (r: Result<Direction, Error>)
        ensures
            r == Ok::<Direction, Error>(self.defaults().direction),
    {
        Ok(self.defaults.direction)
    }

    /// Get the direction the line at `offset` gets if this configuration is
    /// used in a request.
    pub fn get_direction_offset(&self, offset: u32) -> (r: Result<Direction, Error>)
        requires
            self.wf(),
        ensures
            r == Ok::<Direction, Error>(self.settings_at(offset).direction),
    {
        Ok(self.effective(offset).direction)
    }

    /// Set the default edge event detection.
    pub fn set_edge_detection_default(&mut self, edge: Edge)
        requires
            old(self).wf(),
        ensures
            final(self).wf(),
            final(self).overrides() == old(self).overrides(),
            final(self).defaults() == old(self).defaults().with(SettingValue::EdgeDetection(edge)),
    {
        self.defaults.edge_detection = edge;
    }

    /// Set the edge event detection for a single line.
    pub fn set_edge_detection_override(&mut self, edge: Edge, offset: u32)
        requires
            old(self).wf(),
        ensures
            final(self).wf(),
            final(self).defaults() == old(self).defaults(),
            final(self).overrides() == old(self).overrides().insert(
                (offset, Config::EdgeDetection),
                SettingValue::EdgeDetection(edge),
            ),
    {
        self.put(offset, SettingValue::EdgeDetection(edge));
    }

    /// Clear the edge event detection override for a single line.
    pub fn clear_edge_detection_override(&mut self, offset: u32)
        requires
            old(self).wf(),
        ensures
            final(self).wf(),
            final(self).defaults() == old(self).defaults(),
            final(self).overrides() == old(self).overrides().remove((offset, Config::EdgeDetection)),
    {
        self.remove(offset, Config::EdgeDetection);
    }

    /// Check if the edge event detection is overridden for a line.
    pub fn edge_detection_is_overridden(&self, offset: u32) -> (r: bool)
        requires
            self.wf(),
        ensures
            r == self.overrides().contains_key((offset, Config::EdgeDetection)),
    {
        self.lookup(offset, Config::EdgeDetection).is_some()
    }

    /// Get the default edge event detection.
    pub fn get_edge_detection_default(&self) -> (r: Result<Edge, Error>)
        ensures
            r == Ok::<Edge, Error>(self.defaults().edge_detection),
    {
        Ok(self.defaults.edge_detection)
    }

    /// Get the edge event detection the line at `offset` gets if this configuration is
    /// used in a request.
    pub fn get_edge_detection_offset(&self, offset: u32) -> (r: Result<Edge, Error>)
        requires
            self.wf(),
        ensures
            r == Ok::<Edge, Error>(self.settings_at(offset).edge_detection),
    {
        Ok(self.effective(offset).edge_detection)
    }

    /// Set the default bias.
    pub fn set_bias_default(&mut self, bias: Bias)
        requires
            old(self).wf(),
        ensures
            final(self).wf(),
            final(self).overrides() == old(self).overrides(),
            final(self).defaults() == old(self).defaults().with(SettingValue::Bias(bias)),
    {
        self.defaults.bias = bias;
    }

    /// Set the bias for a single line.
    pub fn set_bias_override(&mut self, bias: Bias, offset: u32)
        requires
            old(self).wf(),
        ensures
            final(self).wf(),
            final(self).defaults() == old(self).defaults(),
            final(self).overrides() == old(self).overrides().insert(
                (offset, Config::Bias),
                SettingValue::Bias(bias),
            ),
    {
        self.put(offset, SettingValue::Bias(bias));
    }

    /// Clear the bias override for a single line.
    pub fn clear_bias_override(&mut self, offset: u32)
        requires
            old(self).wf(),
        ensures
            final(self).wf(),
            final(self).defaults() == old(self).defaults(),
            final(self).overrides() == old(self).overrides().remove((offset, Config::Bias)),
    {
        self.remove(offset, Config::Bias);
    }

    /// Check if the bias is overridden for a line.
    pub fn bias_is_overridden(&self, offset: u32) -> (r: bool)
        requires
            self.wf(),
        ensures
            r == self.overrides().contains_key((offset, Config::Bias)),
    {
        self.lookup(offset, Config::Bias).is_some()
    }

    /// Get the default bias.
    pub fn get_bias_default(&self) -> (r: Result<Bias, Error>)
        ensures
            r == Ok::<Bias, Error>(self.defaults().bias),
    {
        Ok(self.defaults.bias)
    }

    /// Get the bias the line at `offset` gets if this configuration is
    /// used in a request.
    pub fn get_bias_offset(&self, offset: u32) -> (r: Result<Bias, Error>)
        requires
            self.wf(),
        ensures
            r == Ok::<Bias, Error>(self.settings_at(offset).bias),
    {
        Ok(self.effective(offset).bias)
    }

    /// Set the default drive.
    pub fn set_drive_default(&mut self, drive: Drive)
        requires
            old(self).wf(),
        ensures
            final(self).wf(),
            final(self).overrides() == old(self).overrides(),
            final(self).defaults() == old(self).defaults().with(SettingValue::Drive(drive)),
    {
        self.defaults.drive = drive;
    }

    /// Set the drive for a single line.
    pub fn set_drive_override(&mut self, drive: Drive, offset: u32)
        requires
            old(self).wf(),
        ensures
            final(self).wf(),
            final(self).defaults() == old(self).defaults(),
            final(self).overrides() == old(self).overrides().insert(
                (offset, Config::Drive),
                SettingValue::Drive(drive),
            ),
    {
        self.put(offset, SettingValue::Drive(drive));
    }

    /// Clear the drive override for a single line.
    pub fn clear_drive_override(&mut self, offset: u32)
        requires
            old(self).wf(),
        ensures
            final(self).wf(),
            final(self).defaults() == old(self).defaults(),
            final(self).overrides() == old(self).overrides().remove((offset, Config::Drive)),
    {
        self.remove(offset, Config::Drive);
    }

    /// Check if the drive is overridden for a line.
    pub fn drive_is_overridden(&self, offset: u32) -> (r: bool)
        requires
            self.wf(),
        ensures
            r == self.overrides().contains_key((offset, Config::Drive)),
    {
        self.lookup(offset, Config::Drive).is_some()
    }

    /// Get the default drive.
    pub fn get_drive_default(&self) -> (r: Result<Drive, Error>)
        ensures
            r == Ok::<Drive, Error>(self.defaults().drive),
    {
        Ok(self.defaults.drive)
    }

    /// Get the drive the line at `offset` gets if this configuration is
    /// used in a request.
    pub fn get_drive_offset(&self, offset: u32) -> (r: Result<Drive, Error>)
        requires
            self.wf(),
        ensures
            r == Ok::<Drive, Error>(self.settings_at(offset).drive),
    {
        Ok(self.effective(offset).drive)
    }

    /// Set the default active-low setting.
    pub fn set_active_low_default(&mut self, active_low: bool)
        requires
            old(self).wf(),
        ensures
            final(self).wf(),
            final(self).overrides() == old(self).overrides(),
            final(self).defaults() == old(self).defaults().with(SettingValue::ActiveLow(active_low)),
    {
        self.defaults.active_low = active_low;
    }

    /// Set the active-low setting for a single line.
    pub fn set_active_low_override(&mut self, active_low: bool, offset: u32)
        requires
            old(self).wf(),
        ensures
            final(self).wf(),
            final(self).defaults() == old(self).defaults(),
            final(self).overrides() == old(self).overrides().insert(
                (offset, Config::ActiveLow),
                SettingValue::ActiveLow(active_low),
            ),
    {
        self.put(offset, SettingValue::ActiveLow(active_low));
    }

    /// Clear the active-low setting override for a single line.
    pub fn clear_active_low_override(&mut self, offset: u32)
        requires
            old(self).wf(),
        ensures
            final(self).wf(),
            final(self).defaults() == old(self).defaults(),
            final(self).overrides() == old(self).overrides().remove((offset, Config::ActiveLow)),
    {
        self.remove(offset, Config::ActiveLow);
    }

    /// Check if the active-low setting is overridden for a line.
    pub fn active_low_is_overridden(&self, offset: u32) -> (r: bool)
        requires
            self.wf(),
        ensures
            r == self.overrides().contains_key((offset, Config::ActiveLow)),
    {
        self.lookup(offset, Config::ActiveLow).is_some()
    }

    /// Get the default active-low setting.
    pub fn get_active_low_default(&self) -> (r: bool)
        ensures
            r == self.defaults().active_low,
    {
        self.defaults.active_low
    }

    /// Get the active-low setting the line at `offset` gets if this configuration is
    /// used in a request.
    pub fn get_active_low_offset(&self, offset: u32) -> (r: bool)
        requires
            self.wf(),
        ensures
            r == self.settings_at(offset).active_low,
    {
        self.effective(offset).active_low
    }

    /// Set the default debounce period (in microseconds).
    pub fn set_debounce_period_default(&mut self, period_us: u64)
        requires
            old(self).wf(),
        ensures
            final(self).wf(),
            final(self).overrides() == old(self).overrides(),
            final(self).defaults() == old(self).defaults().with(SettingValue::DebouncePeriodUs(period_us)),
    {
        self.defaults.debounce_period_us = period_us;
    }

    /// Set the debounce period (in microseconds) for a single line.
    pub fn set_debounce_period_override(&mut self, period_us: u64, offset: u32)
        requires
            old(self).wf(),
        ensures
            final(self).wf(),
            final(self).defaults() == old(self).defaults(),
            final(self).overrides() == old(self).overrides().insert(
                (offset, Config::DebouncePeriodUs),
                SettingValue::DebouncePeriodUs(period_us),
            ),
    {
        self.put(offset, SettingValue::DebouncePeriodUs(period_us));
    }

    /// Clear the debounce period (in microseconds) override for a single line.
    pub fn clear_debounce_period_override(&mut self, offset: u32)
        requires
            old(self).wf(),
        ensures
            final(self).wf(),
            final(self).defaults() == old(self).defaults(),
            final(self).overrides() == old(self).overrides().remove((offset, Config::DebouncePeriodUs)),
    {
        self.remove(offset, Config::DebouncePeriodUs);
    }

    /// Check if the debounce period (in microseconds) is overridden for a line.
    pub fn debounce_period_is_overridden(&self, offset: u32) -> (r: bool)
        requires
            self.wf(),
        ensures
            r == self.overrides().contains_key((offset, Config::DebouncePeriodUs)),
    {
        self.lookup(offset, Config::DebouncePeriodUs).is_some()
    }

    /// Get the default debounce period (in microseconds).
    pub fn get_debounce_period_default(&self) -> (r: Result<u64, Error>)
        ensures
            r == Ok::<u64, Error>(self.defaults().debounce_period_us),
    {
        Ok(self.defaults.debounce_period_us)
    }

    /// Get the debounce period (in microseconds) the line at `offset` gets if this configuration is
    /// used in a request.
    pub fn get_debounce_period_offset(&self, offset: u32) -> (r: Result<u64, Error>)
        requires
            self.wf(),
        ensures
            r == Ok::<u64, Error>(self.settings_at(offset).debounce_period_us),
    {
        Ok(self.effective(offset).debounce_period_us)
    }

    /// Set the default event clock.
    pub fn set_event_clock_default(&mut self, clock: EventClock)
        requires
            old(self).wf(),
        ensures
            final(self).wf(),
            final(self).overrides() == old(self).overrides(),
            final(self).defaults() == old(self).defaults().with(SettingValue::EventClock(clock)),
    {
        self.defaults.event_clock = clock;
    }

    /// Set the event clock for a single line.
    pub fn set_event_clock_override(&mut self, clock: EventClock, offset: u32)
        requires
            old(self).wf(),
        ensures
            final(self).wf(),
            final(self).defaults() == old(self).defaults(),
            final(self).overrides() == old(self).overrides().insert(
                (offset, Config::EventClock),
                SettingValue::EventClock(clock),
            ),
    {
        self.put(offset, SettingValue::EventClock(clock));
    }

    /// Clear the event clock override for a single line.
    pub fn clear_event_clock_override(&mut self, offset: u32)
        requires
            old(self).wf(),
        ensures
            final(self).wf(),
            final(self).defaults() == old(self).defaults(),
            final(self).overrides() == old(self).overrides().remove((offset, Config::EventClock)),
    {
        self.remove(offset, Config::EventClock);
    }

    /// Check if the event clock is overridden for a line.
    pub fn event_clock_is_overridden(&self, offset: u32) -> (r: bool)
        requires
            self.wf(),
        ensures
            r == self.overrides().contains_key((offset, Config::EventClock)),
    {
        self.lookup(offset, Config::EventClock).is_some()
    }

    /// Get the default event clock.
    pub fn get_event_clock_default(&self) -> (r: Result<EventClock, Error>)
        ensures
            r == Ok::<EventClock, Error>(self.defaults().event_clock),
    {
        Ok(self.defaults.event_clock)
    }

    /// Get the event clock the line at `offset` gets if this configuration is
    /// used in a request.
    pub fn get_event_clock_offset(&self, offset: u32) -> (r: Result<EventClock, Error>)
        requires
            self.wf(),
        ensures
            r == Ok::<EventClock, Error>(self.settings_at(offset).event_clock),
    {
        Ok(self.effective(offset).event_clock)
    }

    /// Set the default output value.
    ///
    /// Any nonzero value is stored as 1.
    pub fn set_output_value_default(&mut self, value: u32)
        requires
            old(self).wf(),
        ensures
            final(self).wf(),
            final(self).overrides() == old(self).overrides(),
            final(self).defaults() == old(self).defaults().with(SettingValue::OutputValue(output_level(value))),
    {
        self.defaults.output_value = if value == 0 {
            0
        } else {
            1
        };
    }

    /// Set the output value for a single line.
    ///
    /// Any nonzero value is stored as 1.
    pub fn set_output_value_override(&mut self, value: u32, offset: u32)
        requires
            old(self).wf(),
        ensures
            final(self).wf(),
            final(self).defaults() == old(self).defaults(),
            final(self).overrides() == old(self).overrides().insert(
                (offset, Config::OutputValue),
                SettingValue::OutputValue(output_level(value)),
            ),
    {
        let level: u32 = if value == 0 {
            0
        } else {
            1
        };
        self.put(offset, SettingValue::OutputValue(level));
    }

    /// Clear the output value override for a single line.
    pub fn clear_output_value_override(&mut self, offset: u32)
        requires
            old(self).wf(),
        ensures
            final(self).wf(),
            final(self).defaults() == old(self).defaults(),
            final(self).overrides() == old(self).overrides().remove((offset, Config::OutputValue)),
    {
        self.remove(offset, Config::OutputValue);
    }

    /// Check if the output value is overridden for a line.
    pub fn output_value_is_overridden(&self, offset: u32) -> (r: bool)
        requires
            self.wf(),
        ensures
            r == self.overrides().contains_key((offset, Config::OutputValue)),
    {
        self.lookup(offset, Config::OutputValue).is_some()
    }

    /// Get the default output value.
    pub fn get_output_value_default(&self) -> (r: Result<u32, Error>)
        ensures
            r == Ok::<u32, Error>(self.defaults().output_value),
    {
        Ok(self.defaults.output_value)
    }

    /// Get the output value the line at `offset` gets if this configuration is
    /// used in a request.
    pub fn get_output_value_offset(&self, offset: u32) -> (r: Result<u32, Error>)
        requires
            self.wf(),
        ensures
            r == Ok::<u32, Error>(self.settings_at(offset).output_value),
    {
        Ok(self.effective(offset).output_value)
    }

    /// Reset the entire configuration: every default goes back to its initial
    /// value and every override is dropped.
    pub fn reset(&mut self)
        ensures
            final(self).wf(),
            final(self).defaults() == LineSettings::initial(),
            final(self).overrides() == Map::<(u32, Config), SettingValue>::empty(),
    {
        self.defaults = LineSettings::initial_settings();
        self.entries = Vec::new();
        self.table = Ghost(Map::empty());
    }

    /// Set the output values for a set of lines: the override of the output
    /// value of `offsets[i]` becomes `values[i]` (any nonzero value counts as
    /// 1), later pairs winning over earlier ones for the same offset. Fails
    /// with `ArgumentMismatch`, changing nothing, if the two slices differ in
    /// length.
    pub fn set_output_values(&mut self, offsets: &[u32], values: &[i32]) -> (r: Result<(), Error>)
        requires
            old(self).wf(),
        ensures
            final(self).wf(),
            final(self).defaults() == old(self).defaults(),
            offsets@.len() != values@.len() ==> r == Err::<(), Error>(Error::ArgumentMismatch)
                && final(self).overrides() == old(self).overrides(),
            offsets@.len() == values@.len() ==> r == Ok::<(), Error>(()) && final(self).overrides()
                == with_output_values(old(self).overrides(), offsets@, values@, offsets@.len() as nat),
    {
        if offsets.len() != values.len() {
            return Err(Error::ArgumentMismatch);
        }
        let mut i: usize = 0;
        while i < offsets.len()
            invariant
                self.wf(),
                offsets@.len() == values@.len(),
                i <= offsets@.len(),
                self.defaults() == old(self).defaults(),
                self.overrides() == with_output_values(old(self).overrides(), offsets@, values@, i as nat),
            decreases offsets@.len() - i,
        {
            let level: u32 = if values[i] == 0 {
                0
            } else {
                1
            };
            self.put(offsets[i], SettingValue::OutputValue(level));
            i = i + 1;
        }
        Ok(())
    }

    /// Get the list of overridden offsets and the corresponding properties,
    /// in the order the overrides were first set. Each overridden (offset,
    /// property) pair appears exactly once.
    pub fn get_overrides(&self) -> (r: Result<Vec<(u32, Config)>, Error>)
        requires
            self.wf(),
        ensures
            r matches Ok(v) && v@.no_duplicates()
                && (forall|k: (u32, Config)| v@.contains(k) <==> self.overrides().contains_key(k))
                && v@.len() == self.overrides().dom().len(),
    {
        let mut v: Vec<(u32, Config)> = Vec::new();
        let mut i: usize = 0;
        while i < self.entries.len()
            invariant
                self.wf(),
                i <= self.entries@.len(),
                v@.len() == i,
                forall|j: int| 0 <= j < i ==> #[trigger] v@[j] == entry_key(self.entries@[j]),
            decreases self.entries@.len() - i,
        {
            let e = self.entries[i];
            v.push((e.0, e.1.get_kind()));
            i = i + 1;
        }
        proof {
            assert forall|a: int, b: int| 0 <= a < v@.len() && 0 <= b < v@.len() && a != b implies v@[a]
                != v@[b] by {
                if a < b {
                    assert(entry_key(self.entries@[a]) != entry_key(self.entries@[b]));
                } else {
                    assert(entry_key(self.entries@[b]) != entry_key(self.entries@[a]));
                }
            }
            assert forall|k: (u32, Config)| v@.contains(k) <==> self.overrides().contains_key(k) by {
                if v@.contains(k) {
                    let j = choose|j: int| 0 <= j < v@.len() && v@[j] == k;
                    assert(self.table@.contains_key(entry_key(self.entries@[j])));
                }
                if self.overrides().contains_key(k) {
                    let j = choose|j: int|
                        0 <= j < self.entries@.len() && entry_key(self.entries@[j]) == k;
                    assert(v@[j] == k);
                }
            }
            assert(v@.to_set() =~= self.overrides().dom());
            v@.unique_seq_to_set();
        }
        Ok(v)
    }

    /// The effective settings of each line in `offsets`, in order: the flat
    /// per-line settings that a request for those lines is made with.
    pub fn settings_for(&self, offsets: &[u32]) -> (r: Vec<LineSettings>)
        requires
            self.wf(),
        ensures
            r@ == self.merged(offsets@),
    {
        let mut r: Vec<LineSettings> = Vec::new();
        let mut i: usize = 0;
        while i < offsets.len()
            invariant
                self.wf(),
                i <= offsets@.len(),
                r@.len() == i,
                forall|j: int| 0 <= j < i ==> #[trigger] r@[j] == self.settings_at(offsets@[j]),
            decreases offsets@.len() - i,
        {
            r.push(self.effective(offsets[i]));
            i = i + 1;
        }
        assert(r@ =~= self.merged(offsets@));
        r
    }

    /// The index of the entry stored under (offset, kind), if any.
    fn find(&self, offset: u32, kind: Config) -> (r: Option<usize>)
        requires
            self.wf(),
        ensures
            match r {
                Some(i) => i < self.entries@.len() && entry_key(self.entries@[i as int]) == (
                offset,
                kind,
                ),
                None => !self.overrides().contains_key((offset, kind)),
            },
    {
        let mut i: usize = 0;
        while i < self.entries.len()
            invariant
                self.wf(),
                i <= self.entries@.len(),
                forall|j: int| 0 <= j < i ==> entry_key(self.entries@[j]) != (offset, kind),
            decreases self.entries@.len() - i,
        {
            let e = self.entries[i];
            if e.0 == offset && e.1.get_kind() == kind {
                return Some(i);
            }
            i = i + 1;
        }
        None
    }

    /// The effective settings of the line at `offset`.
    fn effective(&self, offset: u32) -> (r: LineSettings)
        requires
            self.wf(),
        ensures
            r == self.settings_at(offset),
    {
        let mut s = self.defaults;
        if let Some(v) = self.lookup(offset, Config::Direction) {
            s = s.apply(v);
        }
        if let Some(v) = self.lookup(offset, Config::EdgeDetection) {
            s = s.apply(v);
        }
        if let Some(v) = self.lookup(offset, Config::Bias) {
            s = s.apply(v);
        }
        if let Some(v) = self.lookup(offset, Config::Drive) {
            s = s.apply(v);
        }
        if let Some(v) = self.lookup(offset, Config::ActiveLow) {
            s = s.apply(v);
        }
        if let Some(v) = self.lookup(offset, Config::DebouncePeriodUs) {
            s = s.apply(v);
        }
        if let Some(v) = self.lookup(offset, Config::EventClock) {
            s = s.apply(v);
        }
        if let Some(v) = self.lookup(offset, Config::OutputValue) {
            s = s.apply(v);
        }
        s
    }

    /// Store `v` as the override of its property for the line at `offset`.
    fn put(&mut self, offset: u32, v: SettingValue)
        requires
            old(self).wf(),
            v matches SettingValue::OutputValue(x) ==> output_level(x) == x,
        ensures
            final(self).wf(),
            final(self).defaults() == old(self).defaults(),
            final(self).overrides() == old(self).overrides().insert((offset, v.kind()), v),
    {
        let kind = v.get_kind();
        let ghost key = (offset, kind);
        let ghost old_entries = self.entries@;
        let ghost old_table = self.table@;
        let ghost new_table = self.table@.insert(key, v);
        match self.find(offset, kind) {
            Some(i) => {
                self.entries.set(i, (offset, v));
                self.table = Ghost(new_table);
                assert forall|a: int| 0 <= a < self.entries@.len() implies entry_key(
                    #[trigger] self.entries@[a],
                ) == entry_key(old_entries[a]) by {}
                assert forall|a: int| 0 <= a < self.entries@.len() implies #[trigger] self.table@.contains_key(
                    entry_key(self.entries@[a]),
                ) && self.table@[entry_key(self.entries@[a])] == self.entries@[a].1 by {
                    if a != i {
                        assert(entry_key(old_entries[a]) != key);
                        assert(old_table.contains_key(entry_key(old_entries[a])));
                    }
                }
                assert forall|k: (u32, Config)| #[trigger] self.table@.contains_key(k) implies exists|j: int|
                    0 <= j < self.entries@.len() && entry_key(self.entries@[j]) == k by {
                    if k != key {
                        let j = choose|j: int|
                            0 <= j < old_entries.len() && entry_key(old_entries[j]) == k;
                        assert(entry_key(self.entries@[j]) == k);
                    } else {
                        assert(entry_key(self.entries@[i as int]) == k);
                    }
                }
            },
            None => {
                self.entries.push((offset, v));
                self.table = Ghost(new_table);
                assert forall|a: int| 0 <= a < old_entries.len() implies entry_key(
                    #[trigger] old_entries[a],
                ) != key by {
                    assert(self.table@.contains_key(entry_key(old_entries[a])));
                }
                assert forall|a: int| 0 <= a < self.entries@.len() implies #[trigger] self.table@.contains_key(
                    entry_key(self.entries@[a]),
                ) && self.table@[entry_key(self.entries@[a])] == self.entries@[a].1 by {
                    if a < old_entries.len() {
                        assert(self.entries@[a] == old_entries[a]);
                    }
                }
                assert forall|k: (u32, Config)| #[trigger] self.table@.contains_key(k) implies exists|j: int|
                    0 <= j < self.entries@.len() && entry_key(self.entries@[j]) == k by {
                    if k != key {
                        let j = choose|j: int|
                            0 <= j < old_entries.len() && entry_key(old_entries[j]) == k;
                        assert(entry_key(self.entries@[j]) == k);
                    } else {
                        assert(entry_key(self.entries@[old_entries.len() as int]) == k);
                    }
                }
            },
        }
    }

    /// Drop the override of `kind` for the line at `offset`, if there is one.
    fn remove(&mut self, offset: u32, kind: Config)
        requires
            old(self).wf(),
        ensures
            final(self).wf(),
            final(self).defaults() == old(self).defaults(),
            final(self).overrides() == old(self).overrides().remove((offset, kind)),
    {
        let ghost key = (offset, kind);
        let ghost old_entries = self.entries@;
        let ghost old_table = self.table@;
        match self.find(offset, kind) {
            Some(i) => {
                self.entries.remove(i);
                self.table = Ghost(self.table@.remove(key));
                assert forall|k: (u32, Config)| #[trigger] self.table@.contains_key(k) implies exists|j: int|
                    0 <= j < self.entries@.len() && entry_key(self.entries@[j]) == k by {
                    let j = choose|j: int|
                        0 <= j < old_entries.len() && entry_key(old_entries[j]) == k;
                    if j < i {
                        assert(entry_key(self.entries@[j]) == k);
                    } else {
                        assert(entry_key(self.entries@[j - 1]) == k);
                    }
                }
                assert forall|a: int| 0 <= a < self.entries@.len() implies #[trigger] self.table@.contains_key(
                    entry_key(self.entries@[a]),
                ) && self.table@[entry_key(self.entries@[a])] == self.entries@[a].1 by {
                    if a < i {
                        assert(self.entries@[a] == old_entries[a]);
                        assert(entry_key(old_entries[a]) != key);
                        assert(old_table.contains_key(entry_key(old_entries[a])));
                    } else {
                        assert(self.entries@[a] == old_entries[a + 1]);
                        assert(entry_key(old_entries[a + 1]) != key);
                        assert(old_table.contains_key(entry_key(old_entries[a + 1])));
                    }
                }
            },
            None => {
                assert(self.table@.remove(key) =~= self.table@);
            },
        }
    }

    /// The override stored for (offset, kind), if any.
    fn lookup(&self, offset: u32, kind: Config) -> (r: Option<SettingValue>)
        requires
            self.wf(),
        ensures
            r == (if self.overrides().contains_key((offset, kind)) {
                Some(self.overrides()[(offset, kind)])
            } else {
                None
            }),
    {
        match self.find(offset, kind) {
            Some(i) => Some(self.entries[i].1),
            None => None,
        }
    }
}

/// Replacing one property of a line's settings changes that property to the
/// new value and leaves every other one as it was.
pub proof fn lemma_with_value_of(s: LineSettings, v: SettingValue, kind: Config)
    ensures
        s.with(v).value_of(kind) == (if v.kind() == kind {
            v
        } else {
            s.value_of(kind)
        }),
{
}

/// A property that is not overridden for a line takes the current default:
/// `get_<property>_offset(offset) == get_<property>_default()`.
pub proof fn lemma_default_applies(c: LineConfig, offset: u32, kind: Config)
    requires
        c.wf(),
        !c.overrides().contains_key((offset, kind)),
    ensures
        c.settings_at(offset).value_of(kind) == c.defaults().value_of(kind),
{
    let kinds = seq![
        Config::Direction,
        Config::EdgeDetection,
        Config::Bias,
        Config::Drive,
        Config::ActiveLow,
        Config::DebouncePeriodUs,
        Config::EventClock,
        Config::OutputValue,
    ];
    assert forall|i: int| 0 <= i < 8 && c.overrides().contains_key((offset, #[trigger] kinds[i])) implies c.overrides()[(
    offset,
    kinds[i],
    )].kind() == kinds[i] by {
        c.lemma_override_kinds((offset, kinds[i]));
    }
    assert(kinds[0] == Config::Direction);
    assert(kinds[1] == Config::EdgeDetection);
    assert(kinds[2] == Config::Bias);
    assert(kinds[3] == Config::Drive);
    assert(kinds[4] == Config::ActiveLow);
    assert(kinds[5] == Config::DebouncePeriodUs);
    assert(kinds[6] == Config::EventClock);
    assert(kinds[7] == Config::OutputValue);
}

/// Setting an override and then clearing it leaves the property at the
/// current default, even where the default changed in between: `c1` is `c0`
/// with the override `v` set for `offset`, `c2` is `c1` with the default of
/// the same property changed to `d`, and `c3` is `c2` with the override
/// cleared.
pub proof fn lemma_clear_restores_default(
    c0: LineConfig,
    c1: LineConfig,
    c2: LineConfig,
    c3: LineConfig,
    offset: u32,
    v: SettingValue,
    d: SettingValue,
)
    requires
        c0.wf(),
        c1.wf(),
        c2.wf(),
        c3.wf(),
        d.kind() == v.kind(),
        c1.defaults() == c0.defaults(),
        c1.overrides() == c0.overrides().insert((offset, v.kind()), v),
        c2.defaults() == c1.defaults().with(d),
        c2.overrides() == c1.overrides(),
        c3.defaults() == c2.defaults(),
        c3.overrides() == c2.overrides().remove((offset, v.kind())),
    ensures
        c3.settings_at(offset).value_of(v.kind()) == d,
        c3.settings_at(offset).value_of(v.kind()) == c3.defaults().value_of(v.kind()),
{
    lemma_default_applies(c3, offset, v.kind());
    lemma_with_value_of(c1.defaults(), d, v.kind());
}

} // verus!
