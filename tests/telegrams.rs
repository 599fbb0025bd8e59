use std::sync::mpsc;

use dsmr_reader::framer::{frame_telegram, Framer};
use dsmr_reader::pipeline::{Producer, ProducerAction};
use dsmr_reader::points::usage_to_points;
use dsmr_reader::telegram::{find_message, parse_message};
use dsmr_reader::types::{Decimal, DsmrError, Measurement, UsageData};

fn lines(text: &[&str]) -> Vec<String> {
    text.iter().map(|l| l.to_string()).collect()
}

fn telegram_lines(timestamp: &str, low: &str, gas: &str) -> Vec<String> {
    lines(&[
        "/XMX5LGBBFFB231215493",
        "",
        "1-3:0.2.8(42)",
        &format!("0-0:1.0.0({})", timestamp),
        "0-0:96.1.1(4530303034303031353934373534343134)",
        &format!("1-0:1.8.1({}*kWh)", low),
        "1-0:1.8.2(002345.678*kWh)",
        "1-0:2.8.1(000012.345*kWh)",
        "1-0:2.8.2(000023.456*kWh)",
        "0-0:96.14.0(0002)",
        "1-0:1.7.0(00.456*kW)",
        "1-0:2.7.0(00.000*kW)",
        "0-1:24.1.0(003)",
        &format!("0-1:24.2.1({})", gas),
        "!1F28",
    ])
}

fn valid_telegram() -> Vec<String> {
    telegram_lines("200507112856S", "001234.567", "200507112500S)(01643.122*m3")
}

fn m(mantissa: u64, scale: usize, unit: &str) -> Measurement {
    Measurement { value: Decimal { negative: false, mantissa, scale }, unit: unit.to_string() }
}

#[test]
fn frame_skips_lines_before_start() {
    let stream = lines(&["1-0:1.8.1(000001.000*kWh)", "garbage", "/HEADER", "a", "b", "!CRC", "c"]);
    assert_eq!(frame_telegram(&stream), Some(lines(&["a", "b"])));
}

#[test]
fn frame_needs_start_and_end() {
    assert_eq!(frame_telegram(&lines(&[])), None);
    assert_eq!(frame_telegram(&lines(&["a", "!end"])), None);
    assert_eq!(frame_telegram(&lines(&["/start", "a", "b"])), None);
    assert_eq!(frame_telegram(&lines(&["/start", "!end"])), Some(vec![]));
}

#[test]
fn frame_collects_start_like_lines_inside() {
    let stream = lines(&["/one", "/two", "x", "!", "/three", "y", "!"]);
    assert_eq!(frame_telegram(&stream), Some(lines(&["/two", "x"])));
}

#[test]
fn framer_yields_telegrams_in_turn() {
    let mut framer = Framer::new();
    let mut out = Vec::new();
    for l in lines(&["x", "!early", "/a", "1", "!", "junk", "/b", "2", "3", "!"]) {
        if let Some(t) = framer.push_line(l) {
            out.push(t);
        }
    }
    assert_eq!(out, vec![lines(&["1"]), lines(&["2", "3"])]);
}

#[test]
fn find_message_returns_payload() {
    let t = valid_telegram();
    assert_eq!(find_message(&t, "1-0:1.8.1"), Ok("001234.567*kWh"));
    assert_eq!(find_message(&t, "0-1:24.2.1"), Ok("200507112500S)(01643.122*m3"));
    assert_eq!(find_message(&t, "0-0:1.0.0"), Ok("200507112856S"));
}

#[test]
fn find_message_first_occurrence_wins() {
    let t = lines(&["1-0:1.8.1(000001.000*kWh)", "1-0:1.8.1(000002.000*kWh)"]);
    assert_eq!(find_message(&t, "1-0:1.8.1"), Ok("000001.000*kWh"));
}

#[test]
fn find_message_errors() {
    let t = lines(&["1-0:1.8.1 000001.000*kWh", "1-0:1.8.2(000002.000*kWh", "1-0:2.8.1)x("]);
    assert_eq!(find_message(&t, "1-0:1.7.0"), Err(DsmrError::FieldNotFound));
    assert_eq!(find_message(&t, "1-0:1.8.1"), Err(DsmrError::MalformedField));
    assert_eq!(find_message(&t, "1-0:1.8.2"), Err(DsmrError::MalformedField));
    assert_eq!(find_message(&t, "1-0:2.8.1"), Err(DsmrError::MalformedField));
    assert_eq!(find_message(&[], "1-0:2.8.1"), Err(DsmrError::FieldNotFound));
}

#[test]
fn parse_message_assembles_all_fields() {
    let t = frame_telegram(&valid_telegram()).unwrap();
    let d = parse_message(&t).unwrap();
    assert_eq!(d.electricity_timestamp.unix_seconds, 1588843736);
    assert_eq!(d.electricity_reading_low_tariff, m(1234567, 3, "kWh"));
    assert_eq!(d.electricity_reading_normal_tariff, m(2345678, 3, "kWh"));
    assert_eq!(d.electricity_returned_reading_low_tariff, m(12345, 3, "kWh"));
    assert_eq!(d.electricity_returned_reading_normal_tariff, m(23456, 3, "kWh"));
    assert_eq!(d.power_receiving, m(456, 3, "kW"));
    assert_eq!(d.power_returning, m(0, 3, "kW"));
    assert_eq!(d.gas_reading, m(1643122, 3, "m3"));
    assert_eq!(d.gas_timestamp.unix_seconds, 1588843500);
}

#[test]
fn parse_message_reports_first_failing_field() {
    let mut t = frame_telegram(&valid_telegram()).unwrap();
    t.retain(|l| !l.starts_with("1-0:2.7.0"));
    assert_eq!(parse_message(&t), Err(DsmrError::FieldNotFound));
    let bad_low = telegram_lines("200507112856S", "12x", "200507112500S)(01643.122*m3");
    let bad_low = frame_telegram(&bad_low).unwrap();
    assert_eq!(parse_message(&bad_low), Err(DsmrError::InvalidNumber));
    let bad_both = telegram_lines("200507112856Q", "12x", "200507112500S)(01643.122*m3");
    let bad_both = frame_telegram(&bad_both).unwrap();
    assert_eq!(parse_message(&bad_both), Err(DsmrError::InvalidTimezoneMarker));
    let bad_gas = telegram_lines("200507112856S", "1.0", "2005071125S)(01643.122*m3");
    let bad_gas = frame_telegram(&bad_gas).unwrap();
    assert_eq!(parse_message(&bad_gas), Err(DsmrError::InvalidTimestampFormat));
    assert_eq!(parse_message(&[]), Err(DsmrError::FieldNotFound));
}

#[test]
fn points_of_framed_reading() {
    let t = frame_telegram(&valid_telegram()).unwrap();
    let d = parse_message(&t).unwrap();
    let points = usage_to_points(&d);
    let names: Vec<&str> = points.iter().map(|p| p.name.as_str()).collect();
    assert_eq!(
        names,
        vec![
            "electricity_reading_low_tariff",
            "electricity_reading_normal_tariff",
            "electricity_returned_reading_low_tariff",
            "electricity_returned_reading_normal_tariff",
            "power_receiving",
            "power_returning",
            "gas_reading",
        ]
    );
    for p in &points[..6] {
        assert_eq!(p.timestamp, 1588843736);
    }
    assert_eq!(points[6].timestamp, 1588843500);
    assert_eq!(points[0].value, Decimal { negative: false, mantissa: 1234567, scale: 3 });
    assert_eq!(points[0].unit, "kWh");
    assert_eq!(points[4].value, Decimal { negative: false, mantissa: 456, scale: 3 });
    assert_eq!(points[4].unit, "kW");
    assert_eq!(points[6].value, Decimal { negative: false, mantissa: 1643122, scale: 3 });
    assert_eq!(points[6].unit, "m3");
}

#[test]
fn producer_passes_valid_telegrams_in_order() {
    let first = telegram_lines("200507112856S", "000001.000", "200507112500S)(01643.122*m3");
    let mut broken = telegram_lines("200507112857S", "000002.000", "200507112500S)(01643.122*m3");
    broken.retain(|l| !l.starts_with("1-0:1.7.0"));
    let third = telegram_lines("200507112858W", "000003.000", "200507112600W)(01643.200*m3");
    let script: Vec<String> = first.into_iter().chain(broken).chain(third).collect();

    let (sender, receiver) = mpsc::channel::<UsageData>();
    let mut producer = Producer::new();
    let mut skipped = Vec::new();
    for line in script {
        match producer.on_line(line) {
            ProducerAction::Emit(d) => sender.send(d).unwrap(),
            ProducerAction::Skip(e) => skipped.push(e),
            ProducerAction::Wait => {}
        }
    }
    drop(sender);
    let received: Vec<UsageData> = receiver.iter().collect();
    assert_eq!(received.len(), 2);
    assert_eq!(received[0].electricity_reading_low_tariff, m(1000, 3, "kWh"));
    assert_eq!(received[1].electricity_reading_low_tariff, m(3000, 3, "kWh"));
    assert_eq!(received[1].electricity_timestamp.utc_offset, 3600);
    assert_eq!(skipped, vec![DsmrError::FieldNotFound]);
    let written: Vec<i64> = received.iter().map(|d| usage_to_points(d)[0].timestamp).collect();
    assert_eq!(written, vec![1588843736, 1588843738 + 3600]);
}
