//! Properties that relate the parts of the library to each other.

use vstd::prelude::*;

use crate::framer::frame;
use crate::measurement::measurement_of;
use crate::points::{
    points_of, ELECTRICITY_READING_LOW_TARIFF, ELECTRICITY_READING_NORMAL_TARIFF,
    ELECTRICITY_RETURNED_READING_LOW_TARIFF, ELECTRICITY_RETURNED_READING_NORMAL_TARIFF,
    GAS_READING_POINT, POWER_RECEIVING, POWER_RETURNING,
};
use crate::telegram::{
    field_payload, find_field, first_with_prefix_from, gas_field, measurement_field,
    timestamp_field, usage_of, ELECTRICITY_POWER_DELIVERED, ELECTRICITY_POWER_RECEIVED,
    ELECTRICITY_READING_LOW_IDENT, ELECTRICITY_READING_NORMAL_IDENT,
    ELECTRICITY_READING_RETURNED_LOW, ELECTRICITY_READING_RETURNED_NORMAL, ELECTRICITY_TIMESTAMP,
    GAS_READING,
};
use crate::text::{has_prefix, index_of_from};
use crate::timestamp::{
    before_earliest_instant, local_of_fields, local_valid, naive_parse, timestamp_of, SUMMER_OFFSET,
    WINTER_OFFSET,
};
use crate::types::DsmrError;

verus! {

/// A telegram assembles either to a reading in which every field is the
/// decoded field of the telegram, or to the error that one of its fields
/// gave; never to anything in between.
pub proof fn lemma_assembly_all_or_nothing(t: Seq<Seq<char>>)
    ensures
        usage_of(t) is Ok <==> {
            &&& timestamp_field(t, ELECTRICITY_TIMESTAMP@) is Ok
            &&& measurement_field(t, ELECTRICITY_READING_LOW_IDENT@) is Ok
            &&& measurement_field(t, ELECTRICITY_READING_NORMAL_IDENT@) is Ok
            &&& measurement_field(t, ELECTRICITY_READING_RETURNED_LOW@) is Ok
            &&& measurement_field(t, ELECTRICITY_READING_RETURNED_NORMAL@) is Ok
            &&& measurement_field(t, ELECTRICITY_POWER_DELIVERED@) is Ok
            &&& measurement_field(t, ELECTRICITY_POWER_RECEIVED@) is Ok
            &&& gas_field(t, GAS_READING@) is Ok
        },
        usage_of(t) matches Ok(u) ==> {
            &&& timestamp_field(t, ELECTRICITY_TIMESTAMP@) == Ok::<_, DsmrError>(
                u.electricity_timestamp,
            )
            &&& measurement_field(t, ELECTRICITY_READING_LOW_IDENT@) == Ok::<_, DsmrError>(
                u.electricity_reading_low_tariff,
            )
            &&& measurement_field(t, ELECTRICITY_READING_NORMAL_IDENT@) == Ok::<_, DsmrError>(
                u.electricity_reading_normal_tariff,
            )
            &&& measurement_field(t, ELECTRICITY_READING_RETURNED_LOW@) == Ok::<_, DsmrError>(
                u.electricity_returned_reading_low_tariff,
            )
            &&& measurement_field(t, ELECTRICITY_READING_RETURNED_NORMAL@) == Ok::<_, DsmrError>(
                u.electricity_returned_reading_normal_tariff,
            )
            &&& measurement_field(t, ELECTRICITY_POWER_DELIVERED@) == Ok::<_, DsmrError>(
                u.power_receiving,
            )
            &&& measurement_field(t, ELECTRICITY_POWER_RECEIVED@) == Ok::<_, DsmrError>(
                u.power_returning,
            )
            &&& gas_field(t, GAS_READING@) == Ok::<_, DsmrError>((u.gas_reading, u.gas_timestamp))
        },
        usage_of(t) matches Err(e) ==> {
            ||| timestamp_field(t, ELECTRICITY_TIMESTAMP@) == Err::<crate::types::Timestamp, _>(e)
            ||| measurement_field(t, ELECTRICITY_READING_LOW_IDENT@) == Err::<
                (crate::types::Decimal, Seq<char>),
                _,
            >(e)
            ||| measurement_field(t, ELECTRICITY_READING_NORMAL_IDENT@) == Err::<
                (crate::types::Decimal, Seq<char>),
                _,
            >(e)
            ||| measurement_field(t, ELECTRICITY_READING_RETURNED_LOW@) == Err::<
                (crate::types::Decimal, Seq<char>),
                _,
            >(e)
            ||| measurement_field(t, ELECTRICITY_READING_RETURNED_NORMAL@) == Err::<
                (crate::types::Decimal, Seq<char>),
                _,
            >(e)
            ||| measurement_field(t, ELECTRICITY_POWER_DELIVERED@) == Err::<
                (crate::types::Decimal, Seq<char>),
                _,
            >(e)
            ||| measurement_field(t, ELECTRICITY_POWER_RECEIVED@) == Err::<
                (crate::types::Decimal, Seq<char>),
                _,
            >(e)
            ||| gas_field(t, GAS_READING@) == Err::<
                ((crate::types::Decimal, Seq<char>), crate::types::Timestamp),
                _,
            >(e)
        },
{
}

proof fn lemma_first_with_prefix_at(lines: Seq<Seq<char>>, id: Seq<char>, from: int, i: int)
    requires
        0 <= from <= i < lines.len(),
        has_prefix(lines[i], id),
        forall|k: int| from <= k < i ==> !has_prefix(#[trigger] lines[k], id),
    ensures
        first_with_prefix_from(lines, id, from) == Some(i),
    decreases i - from,
{
    if from < i {
        lemma_first_with_prefix_at(lines, id, from + 1, i);
    }
}

/// Of two lines that begin with the same identifier, the earlier one gives
/// the field: where line `i` is the first to begin with `id`, a later line
/// `j` that begins with it too has no say.
pub proof fn lemma_first_occurrence_wins(lines: Seq<Seq<char>>, id: Seq<char>, i: int, j: int)
    requires
        0 <= i < j < lines.len(),
        has_prefix(lines[i], id),
        has_prefix(lines[j], id),
        forall|k: int| 0 <= k < i ==> !has_prefix(#[trigger] lines[k], id),
    ensures
        find_field(lines, id) == field_payload(lines[i]),
{
    lemma_first_with_prefix_at(lines, id, 0, i);
}

proof fn lemma_index_of_absent(s: Seq<char>, c: char, from: int)
    requires
        0 <= from,
        forall|k: int| from <= k < s.len() ==> s[k] != c,
    ensures
        index_of_from(s, c, from) is None,
    decreases s.len() - from,
{
    if from < s.len() {
        lemma_index_of_absent(s, c, from + 1);
    }
}

/// A measurement payload without `*` is rejected as an invalid number.
pub proof fn lemma_measurement_without_star(s: Seq<char>)
    requires
        forall|k: int| 0 <= k < s.len() ==> s[k] != '*',
    ensures
        measurement_of(s) == Err::<(crate::types::Decimal, Seq<char>), DsmrError>(
            DsmrError::InvalidNumber,
        ),
{
    lemma_index_of_absent(s, '*', 0);
}

/// A timestamp payload that is empty or ends in anything but `W` or `S` is
/// rejected for its marker, whatever the format.
pub proof fn lemma_unknown_marker(date: Seq<char>, fmt: Seq<char>)
    requires
        date.len() == 0 || (date.last() != 'W' && date.last() != 'S'),
    ensures
        timestamp_of(date, fmt) == Err::<crate::types::Timestamp, DsmrError>(
            DsmrError::InvalidTimezoneMarker,
        ),
{
}

/// The same local time read with `S` and with `W` denotes the same wall-clock
/// time at UTC+2 and at UTC+1, two instants one hour apart.
pub proof fn lemma_markers_fix_offset(text: Seq<char>, fmt: Seq<char>)
    requires
        naive_parse(text, fmt) is Some,
        local_valid(local_of_fields(naive_parse(text, fmt)->Some_0)),
        !before_earliest_instant(local_of_fields(naive_parse(text, fmt)->Some_0), 7200),
    ensures
        timestamp_of(text.push('S'), fmt) matches Ok(s) && s.local == local_of_fields(
            naive_parse(text, fmt)->Some_0,
        ) && s.utc_offset == SUMMER_OFFSET && SUMMER_OFFSET == 7200,
        timestamp_of(text.push('W'), fmt) matches Ok(w) && w.local == local_of_fields(
            naive_parse(text, fmt)->Some_0,
        ) && w.utc_offset == WINTER_OFFSET && WINTER_OFFSET == 3600,
        timestamp_of(text.push('W'), fmt)->Ok_0.unix_seconds == timestamp_of(text.push('S'), fmt)->Ok_0.unix_seconds
            + 3600,
{
    assert(text.push('S').drop_last() =~= text);
    assert(text.push('W').drop_last() =~= text);
}

/// Framing a line stream, assembling the telegram and mapping the reading
/// gives seven points with the fixed names, in order; the six electricity
/// points share the electricity timestamp and the gas point carries the gas
/// timestamp; each carries the value and unit of its field.
pub proof fn lemma_points_of_framed_reading(lines: Seq<Seq<char>>)
    requires
        frame(lines) is Some,
        usage_of(frame(lines)->Some_0) is Ok,
    ensures
        ({
            let t = frame(lines)->Some_0;
            let u = usage_of(t)->Ok_0;
            let ps = points_of(u);
            &&& ps.len() == 7
            &&& ps[0].name == ELECTRICITY_READING_LOW_TARIFF@
            &&& ps[1].name == ELECTRICITY_READING_NORMAL_TARIFF@
            &&& ps[2].name == ELECTRICITY_RETURNED_READING_LOW_TARIFF@
            &&& ps[3].name == ELECTRICITY_RETURNED_READING_NORMAL_TARIFF@
            &&& ps[4].name == POWER_RECEIVING@
            &&& ps[5].name == POWER_RETURNING@
            &&& ps[6].name == GAS_READING_POINT@
            &&& forall|i: int|
                0 <= i < 6 ==> #[trigger] ps[i].timestamp
                    == timestamp_field(t, ELECTRICITY_TIMESTAMP@)->Ok_0.unix_seconds
            &&& ps[6].timestamp == (gas_field(t, GAS_READING@)->Ok_0).1.unix_seconds
            &&& measurement_field(t, ELECTRICITY_READING_LOW_IDENT@) == Ok::<_, DsmrError>(
                (ps[0].value, ps[0].unit),
            )
            &&& measurement_field(t, ELECTRICITY_READING_NORMAL_IDENT@) == Ok::<_, DsmrError>(
                (ps[1].value, ps[1].unit),
            )
            &&& measurement_field(t, ELECTRICITY_READING_RETURNED_LOW@) == Ok::<_, DsmrError>(
                (ps[2].value, ps[2].unit),
            )
            &&& measurement_field(t, ELECTRICITY_READING_RETURNED_NORMAL@) == Ok::<_, DsmrError>(
                (ps[3].value, ps[3].unit),
            )
            &&& measurement_field(t, ELECTRICITY_POWER_DELIVERED@) == Ok::<_, DsmrError>(
                (ps[4].value, ps[4].unit),
            )
            &&& measurement_field(t, ELECTRICITY_POWER_RECEIVED@) == Ok::<_, DsmrError>(
                (ps[5].value, ps[5].unit),
            )
            &&& (gas_field(t, GAS_READING@)->Ok_0).0 == (ps[6].value, ps[6].unit)
        }),
{
    let t = frame(lines)->Some_0;
    lemma_assembly_all_or_nothing(t);
}

} // verus!
