use chrono::{FixedOffset, NaiveDate, TimeZone};
use dsmr_reader::measurement::{parse_decimal, parse_measurement};
use dsmr_reader::telegram::split_gas;
use dsmr_reader::timestamp::{anchor_local_time, parse_date, DATE_FORMAT};
use dsmr_reader::types::{Decimal, DsmrError, LocalDateTime, Measurement};

fn chrono_seconds(offset: i32, y: i32, mo: u32, d: u32, h: u32, mi: u32, s: u32) -> i64 {
    FixedOffset::east_opt(offset)
        .unwrap()
        .with_ymd_and_hms(y, mo, d, h, mi, s)
        .unwrap()
        .timestamp()
}

fn local(year: i32, month: u32, day: u32, hour: u32, minute: u32, second: u32) -> LocalDateTime {
    LocalDateTime { year, month, day, hour, minute, second }
}

fn decimal(negative: bool, mantissa: u64, scale: usize) -> Decimal {
    Decimal { negative, mantissa, scale }
}

#[test]
fn parse_date_summer_time() {
    let dst_date = parse_date("200507112856S", DATE_FORMAT).unwrap();
    assert_eq!(dst_date.local, local(2020, 5, 7, 11, 28, 56));
    assert_eq!(dst_date.utc_offset, 7200);
    assert_eq!(dst_date.unix_seconds, chrono_seconds(7200, 2020, 5, 7, 11, 28, 56));
    assert_eq!(dst_date.unix_seconds, 1588843736);
}

#[test]
fn parse_date_winter_time() {
    let nondst_date = parse_date("200507112856W", "%y%m%d%H%M%S").unwrap();
    assert_eq!(nondst_date.local, local(2020, 5, 7, 11, 28, 56));
    assert_eq!(nondst_date.utc_offset, 3600);
    assert_eq!(nondst_date.unix_seconds, chrono_seconds(3600, 2020, 5, 7, 11, 28, 56));
    assert_eq!(nondst_date.unix_seconds, 1588843736 + 3600);
}

#[test]
fn parse_date_rejects_other_markers() {
    assert_eq!(parse_date("200507112856X", DATE_FORMAT), Err(DsmrError::InvalidTimezoneMarker));
    assert_eq!(parse_date("200507112856s", DATE_FORMAT), Err(DsmrError::InvalidTimezoneMarker));
    assert_eq!(parse_date("200507112856", DATE_FORMAT), Err(DsmrError::InvalidTimezoneMarker));
    assert_eq!(parse_date("", DATE_FORMAT), Err(DsmrError::InvalidTimezoneMarker));
}

#[test]
fn parse_date_rejects_bad_local_time() {
    assert_eq!(parse_date("2005071128S", DATE_FORMAT), Err(DsmrError::InvalidTimestampFormat));
    assert_eq!(parse_date("200507112856XS", DATE_FORMAT), Err(DsmrError::InvalidTimestampFormat));
    assert_eq!(parse_date("200230112856W", DATE_FORMAT), Err(DsmrError::InvalidTimestampFormat));
    assert_eq!(parse_date("201307112856W", DATE_FORMAT), Err(DsmrError::InvalidTimestampFormat));
    assert_eq!(parse_date("S", DATE_FORMAT), Err(DsmrError::InvalidTimestampFormat));
}

#[test]
fn parse_date_two_digit_years() {
    let late = parse_date("991231235959W", DATE_FORMAT).unwrap();
    assert_eq!(late.local, local(1999, 12, 31, 23, 59, 59));
    assert_eq!(late.unix_seconds, chrono_seconds(3600, 1999, 12, 31, 23, 59, 59));
    let leap = parse_date("240229000000W", DATE_FORMAT).unwrap();
    assert_eq!(leap.local, local(2024, 2, 29, 0, 0, 0));
    assert_eq!(leap.unix_seconds, chrono_seconds(3600, 2024, 2, 29, 0, 0, 0));
}

#[test]
fn parse_date_other_format() {
    let t = parse_date("-0044-03-15 12:00:00W", "%Y-%m-%d %H:%M:%S").unwrap();
    assert_eq!(t.local, local(-44, 3, 15, 12, 0, 0));
    assert_eq!(t.unix_seconds, chrono_seconds(3600, -44, 3, 15, 12, 0, 0));
}

#[test]
fn parse_date_at_start_of_calendar() {
    let fmt = "%Y-%m-%d %H:%M:%S";
    assert_eq!(
        parse_date("-262143-01-01 00:59:59W", fmt),
        Err(DsmrError::AmbiguousLocalTime)
    );
    assert_eq!(
        parse_date("-262143-01-01 01:59:59S", fmt),
        Err(DsmrError::AmbiguousLocalTime)
    );
    let first = parse_date("-262143-01-01 01:00:00W", fmt).unwrap();
    assert_eq!(first.unix_seconds, chrono_seconds(3600, -262143, 1, 1, 1, 0, 0));
}

#[test]
fn anchor_local_time_cases() {
    let summer = anchor_local_time(Some(local(2020, 5, 7, 11, 28, 56)), 7200).unwrap();
    assert_eq!(summer.unix_seconds, 1588843736);
    assert_eq!(summer.utc_offset, 7200);
    assert_eq!(anchor_local_time(None, 3600), Err(DsmrError::InvalidTimestampFormat));
    assert_eq!(
        anchor_local_time(Some(local(-262143, 1, 1, 0, 30, 0)), 3600),
        Err(DsmrError::AmbiguousLocalTime)
    );
}

/// Days from 1970-01-01 to the given date, by the proleptic Gregorian
/// calendar, with floor division throughout.
fn days_from_epoch(y: i64, m: i64, d: i64) -> i64 {
    let leaps = |n: i64| n.div_euclid(4) - n.div_euclid(100) + n.div_euclid(400);
    let is_leap = (y.rem_euclid(4) == 0 && y.rem_euclid(100) != 0) || y.rem_euclid(400) == 0;
    let before = [0, 31, 59, 90, 120, 151, 181, 212, 243, 273, 304, 334];
    let mut days = 365 * (y - 1970) + leaps(y - 1) - leaps(1969) + before[(m - 1) as usize] + d - 1;
    if m > 2 && is_leap {
        days += 1;
    }
    days
}

#[test]
fn unix_seconds_follow_calendar_formula() {
    let dates = [
        (1970, 1, 1),
        (1969, 12, 31),
        (1900, 3, 1),
        (2000, 2, 29),
        (2000, 3, 1),
        (2020, 5, 7),
        (2100, 12, 31),
        (1, 1, 1),
        (0, 2, 29),
        (-1, 12, 31),
        (-400, 3, 1),
        (-262143, 1, 1),
        (262142, 12, 31),
    ];
    for &(y, m, d) in dates.iter() {
        for &offset in [3600, 7200].iter() {
            let t = anchor_local_time(Some(local(y, m, d, 13, 14, 15)), offset).unwrap();
            let expected =
                days_from_epoch(y as i64, m as i64, d as i64) * 86400 + 13 * 3600 + 14 * 60 + 15
                    - offset as i64;
            assert_eq!(t.unix_seconds, expected);
            let naive = NaiveDate::from_ymd_opt(y, m, d).unwrap().and_hms_opt(13, 14, 15).unwrap();
            assert_eq!(t.unix_seconds, naive.and_utc().timestamp() - offset as i64);
        }
    }
}

#[test]
fn parse_measurement_gas_volume() {
    let m = parse_measurement("01643.122*m3").unwrap();
    assert_eq!(m.value, decimal(false, 1643122, 3));
    assert_eq!(m.unit, "m3");
}

#[test]
fn parse_measurement_keeps_unit_verbatim() {
    let m = parse_measurement("00.456*kW").unwrap();
    assert_eq!(m, Measurement { value: decimal(false, 456, 3), unit: "kW".to_string() });
    let empty = parse_measurement("12*").unwrap();
    assert_eq!(empty, Measurement { value: decimal(false, 12, 0), unit: String::new() });
    let odd = parse_measurement("1*k*Wh").unwrap();
    assert_eq!(odd.unit, "k*Wh");
}

#[test]
fn parse_measurement_rejects_bad_payloads() {
    assert_eq!(parse_measurement("01643.122 m3"), Err(DsmrError::InvalidNumber));
    assert_eq!(parse_measurement(""), Err(DsmrError::InvalidNumber));
    assert_eq!(parse_measurement("abc*kWh"), Err(DsmrError::InvalidNumber));
    assert_eq!(parse_measurement("*kWh"), Err(DsmrError::InvalidNumber));
    assert_eq!(parse_measurement("1.2.3*kWh"), Err(DsmrError::InvalidNumber));
}

#[test]
fn parse_decimal_forms() {
    assert_eq!(parse_decimal("001234.567"), Some(decimal(false, 1234567, 3)));
    assert_eq!(parse_decimal("+1.5"), Some(decimal(false, 15, 1)));
    assert_eq!(parse_decimal("-2"), Some(decimal(true, 2, 0)));
    assert_eq!(parse_decimal(".5"), Some(decimal(false, 5, 1)));
    assert_eq!(parse_decimal("5."), Some(decimal(false, 5, 0)));
    assert_eq!(parse_decimal("0.000"), Some(decimal(false, 0, 3)));
    assert_eq!(parse_decimal("18446744073709551615"), Some(decimal(false, u64::MAX, 0)));
    assert_eq!(parse_decimal("1844674407370955161.5"), Some(decimal(false, u64::MAX, 1)));
}

#[test]
fn parse_decimal_rejects() {
    assert_eq!(parse_decimal(""), None);
    assert_eq!(parse_decimal("."), None);
    assert_eq!(parse_decimal("-"), None);
    assert_eq!(parse_decimal("+-1"), None);
    assert_eq!(parse_decimal("1e3"), None);
    assert_eq!(parse_decimal(" 1"), None);
    assert_eq!(parse_decimal("1.2.3"), None);
    assert_eq!(parse_decimal("18446744073709551616"), None);
}

#[test]
fn split_gas_composite_payload() {
    let gas = "200511123008S)(01643.122*m3";
    let (reading, timestamp) = split_gas(gas).unwrap();
    assert_eq!(reading, Measurement { value: decimal(false, 1643122, 3), unit: "m3".to_string() });
    assert_eq!(timestamp.local, local(2020, 5, 11, 12, 30, 8));
    assert_eq!(timestamp.utc_offset, 7200);
    assert_eq!(timestamp.unix_seconds, chrono_seconds(7200, 2020, 5, 11, 12, 30, 8));
    assert_eq!(timestamp.unix_seconds, 1589193008);
}

#[test]
fn split_gas_rejects_bad_payloads() {
    assert_eq!(split_gas("200511123008S"), Err(DsmrError::MalformedField));
    assert_eq!(split_gas("200511123008S)"), Err(DsmrError::MalformedField));
    assert_eq!(split_gas("200511123008S)x01643.122*m3"), Err(DsmrError::MalformedField));
    assert_eq!(split_gas("200511123008X)(01643.122*m3"), Err(DsmrError::InvalidTimezoneMarker));
    assert_eq!(split_gas("200511123008S)(01643.122 m3"), Err(DsmrError::InvalidNumber));
}
