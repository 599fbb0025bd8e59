//! Field extraction from a framed telegram and assembly of a reading.

use vstd::prelude::*;

use crate::measurement::{measurement_of, parse_measurement};
use crate::text::{find_char, has_prefix, index_of, last_index_of, rfind_char, starts_with};
use crate::timestamp::{parse_date, timestamp_of, DATE_FORMAT};
use crate::types::{Decimal, DsmrError, Measurement, Timestamp, UsageData, UsageView};

verus! {

/// OBIS identifier of the electricity timestamp.
pub const ELECTRICITY_TIMESTAMP: &'static str = "0-0:1.0.0";

/// OBIS identifier of the electricity delivered at the low tariff.
pub const ELECTRICITY_READING_LOW_IDENT: &'static str = "1-0:1.8.1";

/// OBIS identifier of the electricity delivered at the normal tariff.
pub const ELECTRICITY_READING_NORMAL_IDENT: &'static str = "1-0:1.8.2";

/// OBIS identifier of the electricity returned at the low tariff.
pub const ELECTRICITY_READING_RETURNED_LOW: &'static str = "1-0:2.8.1";

/// OBIS identifier of the electricity returned at the normal tariff.
pub const ELECTRICITY_READING_RETURNED_NORMAL: &'static str = "1-0:2.8.2";

/// OBIS identifier of the power being delivered.
pub const ELECTRICITY_POWER_DELIVERED: &'static str = "1-0:1.7.0";

/// OBIS identifier of the power being received.
pub const ELECTRICITY_POWER_RECEIVED: &'static str = "1-0:2.7.0";

/// OBIS identifier of the gas reading, with its own timestamp.
pub const GAS_READING: &'static str = "0-1:24.2.1";

/// The characters of each line.
pub open spec fn lines_view(message: Seq<String>) -> Seq<Seq<char>> {
    message.map_values(|l: String| l@)
}

/// Position of the first line at or after `from` that begins with `id`.
pub open spec fn first_with_prefix_from(lines: Seq<Seq<char>>, id: Seq<char>, from: int) -> Option<
    int,
>
    decreases lines.len() - from,
{
    if from < 0 || from >= lines.len() {
        None
    } else if has_prefix(lines[from], id) {
        Some(from)
    } else {
        first_with_prefix_from(lines, id, from + 1)
    }
}

/// Position of the first line that begins with `id`.
pub open spec fn first_with_prefix(lines: Seq<Seq<char>>, id: Seq<char>) -> Option<int> {
    first_with_prefix_from(lines, id, 0)
}

/// The text strictly between the first `(` and the last `)` of a line.
pub open spec fn field_payload(line: Seq<char>) -> Result<Seq<char>, DsmrError> {
    match index_of(line, '(') {
        None => Err(DsmrError::MalformedField),
        Some(p) => match last_index_of(line, ')') {
            Some(q) => if p < q {
                Ok(line.subrange(p + 1, q))
            } else {
                Err(DsmrError::MalformedField)
            },
            None => Err(DsmrError::MalformedField),
        },
    }
}

/// The payload of the first line that begins with `id`.
pub open spec fn find_field(lines: Seq<Seq<char>>, id: Seq<char>) -> Result<Seq<char>, DsmrError> {
    match first_with_prefix(lines, id) {
        None => Err(DsmrError::FieldNotFound),
        Some(i) => field_payload(lines[i]),
    }
}

/// The measurement in the field `id`.
pub open spec fn measurement_field(lines: Seq<Seq<char>>, id: Seq<char>) -> Result<
    (Decimal, Seq<char>),
    DsmrError,
> {
    match find_field(lines, id) {
        Err(e) => Err(e),
        Ok(p) => measurement_of(p),
    }
}

/// The timestamp in the field `id`.
pub open spec fn timestamp_field(lines: Seq<Seq<char>>, id: Seq<char>) -> Result<
    Timestamp,
    DsmrError,
> {
    match find_field(lines, id) {
        Err(e) => Err(e),
        Ok(p) => timestamp_of(p, DATE_FORMAT@),
    }
}

/// What a composite gas payload `<timestamp>)(<measurement>` decodes to.
pub open spec fn gas_of(gas: Seq<char>) -> Result<((Decimal, Seq<char>), Timestamp), DsmrError> {
    match index_of(gas, ')') {
        None => Err(DsmrError::MalformedField),
        Some(k) => if k + 1 >= gas.len() || gas[k + 1] != '(' {
            Err(DsmrError::MalformedField)
        } else {
            match timestamp_of(gas.subrange(0, k), DATE_FORMAT@) {
                Err(e) => Err(e),
                Ok(t) => match measurement_of(gas.subrange(k + 2, gas.len() as int)) {
                    Err(e) => Err(e),
                    Ok(m) => Ok((m, t)),
                },
            }
        },
    }
}

/// The gas reading and its timestamp in the field `id`.
pub open spec fn gas_field(lines: Seq<Seq<char>>, id: Seq<char>) -> Result<
    ((Decimal, Seq<char>), Timestamp),
    DsmrError,
> {
    match find_field(lines, id) {
        Err(e) => Err(e),
        Ok(p) => gas_of(p),
    }
}

/// What a telegram assembles to: the error of the first field, in the order
/// below, that is missing or does not decode; else every field decoded.
pub open spec fn usage_of(lines: Seq<Seq<char>>) -> Result<UsageView, DsmrError> {
    let ts = timestamp_field(lines, ELECTRICITY_TIMESTAMP@);
    let low = measurement_field(lines, ELECTRICITY_READING_LOW_IDENT@);
    let normal = measurement_field(lines, ELECTRICITY_READING_NORMAL_IDENT@);
    let returned_low = measurement_field(lines, ELECTRICITY_READING_RETURNED_LOW@);
    let returned_normal = measurement_field(lines, ELECTRICITY_READING_RETURNED_NORMAL@);
    let delivered = measurement_field(lines, ELECTRICITY_POWER_DELIVERED@);
    let received = measurement_field(lines, ELECTRICITY_POWER_RECEIVED@);
    let gas = gas_field(lines, GAS_READING@);
    if ts is Err {
        Err(ts->Err_0)
    } else if low is Err {
        Err(low->Err_0)
    } else if normal is Err {
        Err(normal->Err_0)
    } else if returned_low is Err {
        Err(returned_low->Err_0)
    } else if returned_normal is Err {
        Err(returned_normal->Err_0)
    } else if delivered is Err {
        Err(delivered->Err_0)
    } else if received is Err {
        Err(received->Err_0)
    } else if gas is Err {
        Err(gas->Err_0)
    } else {
        Ok(
            UsageView {
                electricity_timestamp: ts->Ok_0,
                power_receiving: delivered->Ok_0,
                power_returning: received->Ok_0,
                electricity_returned_reading_low_tariff: returned_low->Ok_0,
                electricity_returned_reading_normal_tariff: returned_normal->Ok_0,
                electricity_reading_low_tariff: low->Ok_0,
                electricity_reading_normal_tariff: normal->Ok_0,
                gas_reading: (gas->Ok_0).0,
                gas_timestamp: (gas->Ok_0).1,
            },
        )
    }
}

/// Returns the payload of the first line that begins with `ident`: the text
/// strictly between its first `(` and its last `)`.
pub fn find_message<'a>(message: &'a [String], ident: &str) -> (r: Result<&'a str, DsmrError>)
    ensures
        match r {
            Ok(p) => find_field(lines_view(message@), ident@) == Ok::<Seq<char>, DsmrError>(p@),
            Err(e) => find_field(lines_view(message@), ident@) == Err::<Seq<char>, DsmrError>(e),
        },
{
    let ghost lines = lines_view(message@);
    let mut i: usize = 0;
    while i < message.len()
        invariant
            i <= message@.len(),
            lines == lines_view(message@),
            first_with_prefix(lines, ident@) == first_with_prefix_from(lines, ident@, i as int),
        decreases message@.len() - i,
    {
        let line = message[i].as_str();
        assert(lines[i as int] == line@);
        if starts_with(line, ident) {
            return match find_char(line, '(') {
                None => Err(DsmrError::MalformedField),
                Some(p) => match rfind_char(line, ')') {
                    Some(q) => if p < q {
                        Ok(line.substring_char(p + 1, q))
                    } else {
                        Err(DsmrError::MalformedField)
                    },
                    None => Err(DsmrError::MalformedField),
                },
            };
        }
        i += 1;
    }
    Err(DsmrError::FieldNotFound)
}

fn read_measurement(message: &[String], ident: &str) -> (r: Result<Measurement, DsmrError>)
    ensures
        match r {
            Ok(m) => measurement_field(lines_view(message@), ident@) == Ok::<
                (Decimal, Seq<char>),
                DsmrError,
            >(m@),
            Err(e) => measurement_field(lines_view(message@), ident@) == Err::<
                (Decimal, Seq<char>),
                DsmrError,
            >(e),
        },
{
    match find_message(message, ident) {
        Ok(p) => parse_measurement(p),
        Err(e) => Err(e),
    }
}

fn read_timestamp(message: &[String], ident: &str) -> (r: Result<Timestamp, DsmrError>)
    ensures
        r == timestamp_field(lines_view(message@), ident@),
        r matches Ok(t) ==> t.wf(),
{
    match find_message(message, ident) {
        Ok(p) => parse_date(p, DATE_FORMAT),
        Err(e) => Err(e),
    }
}

/// Splits a composite gas payload `<timestamp>)(<measurement>` into the
/// measurement and its timestamp.
pub fn split_gas(gas: &str) -> (r: Result<(Measurement, Timestamp), DsmrError>)
    ensures
        match r {
            Ok((m, t)) => gas_of(gas@) == Ok::<((Decimal, Seq<char>), Timestamp), DsmrError>(
                (m@, t),
            ),
            Err(e) => gas_of(gas@) == Err::<((Decimal, Seq<char>), Timestamp), DsmrError>(e),
        },
        r matches Ok((m, t)) ==> t.wf(),
{
    let n = gas.unicode_len();
    let k = match find_char(gas, ')') {
        None => return Err(DsmrError::MalformedField),
        Some(k) => k,
    };
    if k + 1 >= n || gas.get_char(k + 1) != '(' {
        return Err(DsmrError::MalformedField);
    }
    let timestamp = match parse_date(gas.substring_char(0, k), DATE_FORMAT) {
        Ok(t) => t,
        Err(e) => return Err(e),
    };
    match parse_measurement(gas.substring_char(k + 2, n)) {
        Ok(m) => Ok((m, timestamp)),
        Err(e) => Err(e),
    }
}

fn read_gas(message: &[String], ident: &str) -> (r: Result<(Measurement, Timestamp), DsmrError>)
    ensures
        match r {
            Ok((m, t)) => gas_field(lines_view(message@), ident@) == Ok::<
                ((Decimal, Seq<char>), Timestamp),
                DsmrError,
            >((m@, t)),
            Err(e) => gas_field(lines_view(message@), ident@) == Err::<
                ((Decimal, Seq<char>), Timestamp),
                DsmrError,
            >(e),
        },
        r matches Ok((m, t)) ==> t.wf(),
{
    match find_message(message, ident) {
        Ok(p) => split_gas(p),
        Err(e) => Err(e),
    }
}

/// Assembles one reading from the data lines of a telegram: every field or
/// the error of the first one that fails.
pub fn parse_message(message: &[String]) -> (r: Result<UsageData, DsmrError>)
    ensures
        match r {
            Ok(d) => usage_of(lines_view(message@)) == Ok::<UsageView, DsmrError>(d@),
            Err(e) => usage_of(lines_view(message@)) == Err::<UsageView, DsmrError>(e),
        },
        r matches Ok(d) ==> d.wf(),
{
    let electricity_timestamp = match read_timestamp(message, ELECTRICITY_TIMESTAMP) {
        Ok(t) => t,
        Err(e) => return Err(e),
    };
    let electricity_reading_low_tariff = match read_measurement(
        message,
        ELECTRICITY_READING_LOW_IDENT,
    ) {
        Ok(m) => m,
        Err(e) => return Err(e),
    };
    let electricity_reading_normal_tariff = match read_measurement(
        message,
        ELECTRICITY_READING_NORMAL_IDENT,
    ) {
        Ok(m) => m,
        Err(e) => return Err(e),
    };
    let electricity_returned_reading_low_tariff = match read_measurement(
        message,
        ELECTRICITY_READING_RETURNED_LOW,
    ) {
        Ok(m) => m,
        Err(e) => return Err(e),
    };
    let electricity_returned_reading_normal_tariff = match read_measurement(
        message,
        ELECTRICITY_READING_RETURNED_NORMAL,
    ) {
        Ok(m) => m,
        Err(e) => return Err(e),
    };
    let power_receiving = match read_measurement(message, ELECTRICITY_POWER_DELIVERED) {
        Ok(m) => m,
        Err(e) => return Err(e),
    };
    let power_returning = match read_measurement(message, ELECTRICITY_POWER_RECEIVED) {
        Ok(m) => m,
        Err(e) => return Err(e),
    };
    let (gas_reading, gas_timestamp) = match read_gas(message, GAS_READING) {
        Ok(g) => g,
        Err(e) => return Err(e),
    };
    Ok(
        UsageData {
            electricity_timestamp,
            power_receiving,
            power_returning,
            electricity_reading_low_tariff,
            electricity_reading_normal_tariff,
            electricity_returned_reading_normal_tariff,
            electricity_returned_reading_low_tariff,
            gas_reading,
            gas_timestamp,
        },
    )
}

} // verus!
