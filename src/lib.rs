//! Reading of DSMR smart-meter telegrams: framing of the line stream,
//! extraction of OBIS fields, decoding of measurements and timestamps, and
//! mapping of a reading to time-series points.

pub mod text;
pub mod types;
pub mod measurement;
pub mod timestamp;
pub mod telegram;
pub mod framer;
pub mod points;
pub mod pipeline;
pub mod laws;

pub use crate::measurement::parse_measurement;
pub use crate::points::usage_to_points;
pub use crate::telegram::{parse_message, split_gas};
pub use crate::timestamp::parse_date;
pub use crate::types::{DsmrError, Measurement, Timestamp, UsageData};
