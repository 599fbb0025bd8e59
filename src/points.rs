//! Mapping of a reading to the points that the sink stores.

use vstd::prelude::*;

use crate::types::{Decimal, Measurement, Point, PointView, Timestamp, UsageData, UsageView};

verus! {

pub const ELECTRICITY_READING_LOW_TARIFF: &'static str = "electricity_reading_low_tariff";

pub const ELECTRICITY_READING_NORMAL_TARIFF: &'static str = "electricity_reading_normal_tariff";

pub const ELECTRICITY_RETURNED_READING_LOW_TARIFF: &'static str =
    "electricity_returned_reading_low_tariff";

pub const ELECTRICITY_RETURNED_READING_NORMAL_TARIFF: &'static str =
    "electricity_returned_reading_normal_tariff";

pub const POWER_RECEIVING: &'static str = "power_receiving";

pub const POWER_RETURNING: &'static str = "power_returning";

pub const GAS_READING_POINT: &'static str = "gas_reading";

/// The point for measurement `m` under `name`, at the instant of `t`.
pub open spec fn point_of(name: Seq<char>, m: (Decimal, Seq<char>), t: Timestamp) -> PointView {
    PointView { name, timestamp: t.unix_seconds, value: m.0, unit: m.1 }
}

/// The seven points of a reading: six electricity measurements at the
/// electricity timestamp, then the gas reading at its own timestamp.
pub open spec fn points_of(u: UsageView) -> Seq<PointView> {
    seq![
        point_of(
            ELECTRICITY_READING_LOW_TARIFF@,
            u.electricity_reading_low_tariff,
            u.electricity_timestamp,
        ),
        point_of(
            ELECTRICITY_READING_NORMAL_TARIFF@,
            u.electricity_reading_normal_tariff,
            u.electricity_timestamp,
        ),
        point_of(
            ELECTRICITY_RETURNED_READING_LOW_TARIFF@,
            u.electricity_returned_reading_low_tariff,
            u.electricity_timestamp,
        ),
        point_of(
            ELECTRICITY_RETURNED_READING_NORMAL_TARIFF@,
            u.electricity_returned_reading_normal_tariff,
            u.electricity_timestamp,
        ),
        point_of(POWER_RECEIVING@, u.power_receiving, u.electricity_timestamp),
        point_of(POWER_RETURNING@, u.power_returning, u.electricity_timestamp),
        point_of(GAS_READING_POINT@, u.gas_reading, u.gas_timestamp),
    ]
}

/// The points of a sequence of points, as views.
pub open spec fn points_view(points: Seq<Point>) -> Seq<PointView> {
    points.map_values(|p: Point| p@)
}

/// Makes the point for one measurement.
pub fn create_point(name: &str, value: &Measurement, timestamp: &Timestamp) -> (r: Point)
    ensures
        r@ == point_of(name@, value@, *timestamp),
{
    Point {
        name: name.to_owned(),
        timestamp: timestamp.unix_seconds,
        value: value.value,
        unit: value.unit.clone(),
    }
}

/// Maps a reading to its seven points, in the order of `points_of`.
pub fn usage_to_points(data: &UsageData) -> (r: Vec<Point>)
    ensures
        points_view(r@) == points_of(data@),
{
    let mut points: Vec<Point> = Vec::new();
    points.push(
        create_point(
            ELECTRICITY_READING_LOW_TARIFF,
            &data.electricity_reading_low_tariff,
            &data.electricity_timestamp,
        ),
    );
    points.push(
        create_point(
            ELECTRICITY_READING_NORMAL_TARIFF,
            &data.electricity_reading_normal_tariff,
            &data.electricity_timestamp,
        ),
    );
    points.push(
        create_point(
            ELECTRICITY_RETURNED_READING_LOW_TARIFF,
            &data.electricity_returned_reading_low_tariff,
            &data.electricity_timestamp,
        ),
    );
    points.push(
        create_point(
            ELECTRICITY_RETURNED_READING_NORMAL_TARIFF,
            &data.electricity_returned_reading_normal_tariff,
            &data.electricity_timestamp,
        ),
    );
    points.push(create_point(POWER_RECEIVING, &data.power_receiving, &data.electricity_timestamp));
    points.push(create_point(POWER_RETURNING, &data.power_returning, &data.electricity_timestamp));
    points.push(create_point(GAS_READING_POINT, &data.gas_reading, &data.gas_timestamp));
    assert(points_view(points@) =~= points_of(data@));
    points
}

} // verus!
