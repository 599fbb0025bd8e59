//! The values that a telegram is decoded into.

use vstd::prelude::*;

verus! {

/// What can go wrong while reading a meter.
#[derive(Clone, Copy, Debug, PartialEq, Eq, Structural)]
pub enum DsmrError {
    /// No line of the telegram begins with the requested identifier.
    FieldNotFound,
    /// The matching line, or the gas payload, lacks its parentheses.
    MalformedField,
    /// A measurement payload is not `<number>*<unit>`.
    InvalidNumber,
    /// The local time of a timestamp payload does not match the format.
    InvalidTimestampFormat,
    /// A timestamp payload does not end in `W` or `S`.
    InvalidTimezoneMarker,
    /// The local time cannot be anchored at its offset.
    AmbiguousLocalTime,
    /// The line source closed.
    StreamEnded,
    /// The sink, or the queue in front of it, is gone.
    SinkUnavailable,
}

/// A number in decimal notation: `(-1)^negative * mantissa / 10^scale`.
#[derive(Clone, Copy, Debug, PartialEq, Eq, Structural)]
pub struct Decimal {
    pub negative: bool,
    pub mantissa: u64,
    /// The number of digits after the decimal point.
    pub scale: usize,
}

/// A metered quantity with its unit, as the meter wrote them.
#[derive(Clone, Debug, PartialEq)]
pub struct Measurement {
    pub value: Decimal,
    pub unit: String,
}

impl View for Measurement {
    type V = (Decimal, Seq<char>);

    open spec fn view(&self) -> (Decimal, Seq<char>) {
        (self.value, self.unit@)
    }
}

/// A wall-clock date and time, without an offset.
#[derive(Clone, Copy, Debug, PartialEq, Eq, Structural)]
pub struct LocalDateTime {
    pub year: i32,
    pub month: u32,
    pub day: u32,
    pub hour: u32,
    pub minute: u32,
    pub second: u32,
}

/// A local time anchored at a fixed offset from UTC, with the instant it denotes.
#[derive(Clone, Copy, Debug, PartialEq, Eq, Structural)]
pub struct Timestamp {
    pub local: LocalDateTime,
    /// Seconds east of UTC: 3600 in winter, 7200 in summer.
    pub utc_offset: i32,
    /// Seconds since 1970-01-01T00:00:00Z, leap seconds not counted.
    pub unix_seconds: i64,
}

/// One complete reading of the meter.
#[derive(Clone, Debug, PartialEq)]
pub struct UsageData {
    pub electricity_timestamp: Timestamp,
    pub power_receiving: Measurement,
    pub power_returning: Measurement,
    pub electricity_returned_reading_low_tariff: Measurement,
    pub electricity_returned_reading_normal_tariff: Measurement,
    pub electricity_reading_low_tariff: Measurement,
    pub electricity_reading_normal_tariff: Measurement,
    pub gas_reading: Measurement,
    pub gas_timestamp: Timestamp,
}

impl UsageData {
    /// Both timestamps are well formed.
    pub open spec fn wf(&self) -> bool {
        self.electricity_timestamp.wf() && self.gas_timestamp.wf()
    }
}

/// A reading with each measurement seen as its value and the characters of
/// its unit.
pub struct UsageView {
    pub electricity_timestamp: Timestamp,
    pub power_receiving: (Decimal, Seq<char>),
    pub power_returning: (Decimal, Seq<char>),
    pub electricity_returned_reading_low_tariff: (Decimal, Seq<char>),
    pub electricity_returned_reading_normal_tariff: (Decimal, Seq<char>),
    pub electricity_reading_low_tariff: (Decimal, Seq<char>),
    pub electricity_reading_normal_tariff: (Decimal, Seq<char>),
    pub gas_reading: (Decimal, Seq<char>),
    pub gas_timestamp: Timestamp,
}

impl View for UsageData {
    type V = UsageView;

    open spec fn view(&self) -> UsageView {
        UsageView {
            electricity_timestamp: self.electricity_timestamp,
            power_receiving: self.power_receiving@,
            power_returning: self.power_returning@,
            electricity_returned_reading_low_tariff: self.electricity_returned_reading_low_tariff@,
            electricity_returned_reading_normal_tariff:
                self.electricity_returned_reading_normal_tariff@,
            electricity_reading_low_tariff: self.electricity_reading_low_tariff@,
            electricity_reading_normal_tariff: self.electricity_reading_normal_tariff@,
            gas_reading: self.gas_reading@,
            gas_timestamp: self.gas_timestamp,
        }
    }
}

/// A record for the time-series sink: a measurement under a name, at an
/// instant, with its value as the field `value` and its unit as the tag `unit`.
#[derive(Clone, Debug, PartialEq)]
pub struct Point {
    pub name: String,
    pub timestamp: i64,
    pub value: Decimal,
    pub unit: String,
}

/// A point with its name and unit seen as characters.
pub struct PointView {
    pub name: Seq<char>,
    pub timestamp: i64,
    pub value: Decimal,
    pub unit: Seq<char>,
}

impl View for Point {
    type V = PointView;

    open spec fn view(&self) -> PointView {
        PointView { name: self.name@, timestamp: self.timestamp, value: self.value, unit: self.unit@ }
    }
}

} // verus!
