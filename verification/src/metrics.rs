//! Metric rows: the canonical form of one reading, and the builders that
//! turn raw readings into the rows of one collection run.

use vstd::prelude::*;
use crate::classify::SensorClass;
use crate::classify::classify_sensor;
use crate::classify::spec_classify;
use crate::rounding::round_milli_to_centi;
use crate::rounding::spec_round_milli_to_centi;

verus! {

/// Coarse category of a measurement.
#[derive(Clone, Copy, PartialEq, Eq, Structural, Debug)]
pub enum MetricType {
    Usage,
    Temperature,
}

/// Unit of a measurement.
#[derive(Clone, Copy, PartialEq, Eq, Structural, Debug)]
pub enum Unit {
    Percent,
    Celsius,
}

/// The label under which a metric type is persisted.
pub open spec fn spec_metric_type_str(t: MetricType) -> Seq<char> {
    match t {
        MetricType::Usage => "usage"@,
        MetricType::Temperature => "temperature"@,
    }
}

/// The label under which a unit is persisted.
pub open spec fn spec_unit_str(u: Unit) -> Seq<char> {
    match u {
        Unit::Percent => "percent"@,
        Unit::Celsius => "celsius"@,
    }
}

impl MetricType {
    /// The label under which this metric type is persisted.
    pub fn as_str(&self) -> (s: &'static str)
        ensures
            s@ == spec_metric_type_str(*self),
    {
        match self {
            MetricType::Usage => "usage",
            MetricType::Temperature => "temperature",
        }
    }
}

impl Unit {
    /// The label under which this unit is persisted.
    pub fn as_str(&self) -> (s: &'static str)
        ensures
            s@ == spec_unit_str(*self),
    {
        match self {
            Unit::Percent => "percent",
            Unit::Celsius => "celsius",
        }
    }
}

/// One reading, ready to be persisted: a timestamp (microseconds since the
/// epoch, shared by every row of one run), a metric category and name, the
/// value at centi scale (hundredths, i.e. rounded to two decimals), and a unit.
#[derive(Clone, PartialEq, Eq, Debug)]
pub struct MetricRow {
    pub time_micros: i64,
    pub metric_type: MetricType,
    pub metric_name: String,
    pub value_centi: i64,
    pub unit: Unit,
}

/// A temperature sensor as read from the host: its label and its reading
/// at milli scale (thousandths of a degree).
#[derive(Clone, PartialEq, Eq, Debug)]
pub struct SensorReading {
    pub label: String,
    pub temp_milli: i64,
}

/// A milli-scaled reading that rounding accepts.
pub open spec fn reading_in_range(m: int) -> bool {
    i64::MIN + 10 <= m <= i64::MAX - 5
}

/// The canonical metric name of a temperature sensor: the name of its class,
/// or the raw label where the sensor is unclassified.
pub open spec fn spec_metric_name(label: Seq<char>) -> Seq<char> {
    match spec_classify(label) {
        SensorClass::Gpu => "gpu_temperature"@,
        SensorClass::Nvme => "nvme_temperature"@,
        SensorClass::CpuTemp => "cpu_temperature"@,
        SensorClass::Other => label,
    }
}

/// Maps a sensor label to its canonical metric name.
pub fn temperature_metric_name(label: &str) -> (name: String)
    ensures
        name@ == spec_metric_name(label@),
{
    match classify_sensor(label) {
        SensorClass::Gpu => "gpu_temperature".to_owned(),
        SensorClass::Nvme => "nvme_temperature".to_owned(),
        SensorClass::CpuTemp => "cpu_temperature".to_owned(),
        SensorClass::Other => label.to_owned(),
    }
}

/// Memory usage in centi-percent: `(used / total) * 100`, rounded half up to
/// two decimals, computed exactly on integers.
pub open spec fn spec_memory_usage_centi(used: int, total: int) -> int {
    (used * 20000 + total) / (2 * total)
}

/// Computes memory usage in centi-percent from byte counts. `None` exactly
/// when the computation is undefined (no memory reported) or the result does
/// not fit: with `used <= total` the value is at most 10000 and always fits.
pub fn memory_usage_centi(used: u64, total: u64) -> (r: Option<i64>)
    ensures
        r is Some <==> total > 0 && spec_memory_usage_centi(used as int, total as int)
            <= i64::MAX,
        r matches Some(v) ==> v == spec_memory_usage_centi(used as int, total as int),
{
    if total == 0 {
        return None;
    }
    let num: u128 = (used as u128) * 20000 + (total as u128);
    let den: u128 = 2 * (total as u128);
    let q: u128 = num / den;
    if q > i64::MAX as u128 {
        None
    } else {
        Some(q as i64)
    }
}

/// The CPU usage row: global CPU utilization in percent, rounded.
pub fn cpu_usage_row(time_micros: i64, cpu_milli: i64) -> (row: MetricRow)
    requires
        reading_in_range(cpu_milli as int),
    ensures
        row.time_micros == time_micros,
        row.metric_type == MetricType::Usage,
        row.metric_name@ == "cpu_usage"@,
        row.value_centi == spec_round_milli_to_centi(cpu_milli as int),
        row.unit == Unit::Percent,
{
    MetricRow {
        time_micros,
        metric_type: MetricType::Usage,
        metric_name: "cpu_usage".to_owned(),
        value_centi: round_milli_to_centi(cpu_milli),
        unit: Unit::Percent,
    }
}

/// The memory usage row: used over total memory in percent, rounded.
/// `None` exactly when `memory_usage_centi` yields no value.
pub fn memory_usage_row(time_micros: i64, used_memory: u64, total_memory: u64) -> (r: Option<
    MetricRow,
>)
    ensures
        r is Some <==> total_memory > 0 && spec_memory_usage_centi(
            used_memory as int,
            total_memory as int,
        ) <= i64::MAX,
        r matches Some(row) ==> {
            &&& row.time_micros == time_micros
            &&& row.metric_type == MetricType::Usage
            &&& row.metric_name@ == "memory_usage"@
            &&& row.value_centi == spec_memory_usage_centi(
                used_memory as int,
                total_memory as int,
            )
            &&& row.unit == Unit::Percent
        },
{
    match memory_usage_centi(used_memory, total_memory) {
        None => None,
        Some(v) => Some(
            MetricRow {
                time_micros,
                metric_type: MetricType::Usage,
                metric_name: "memory_usage".to_owned(),
                value_centi: v,
                unit: Unit::Percent,
            },
        ),
    }
}

/// A temperature row: the sensor's canonical metric name and its reading
/// in degrees Celsius, rounded.
pub fn temperature_row(time_micros: i64, label: &str, temp_milli: i64) -> (row: MetricRow)
    requires
        reading_in_range(temp_milli as int),
    ensures
        row.time_micros == time_micros,
        row.metric_type == MetricType::Temperature,
        row.metric_name@ == spec_metric_name(label@),
        row.value_centi == spec_round_milli_to_centi(temp_milli as int),
        row.unit == Unit::Celsius,
{
    MetricRow {
        time_micros,
        metric_type: MetricType::Temperature,
        metric_name: temperature_metric_name(label),
        value_centi: round_milli_to_centi(temp_milli),
        unit: Unit::Celsius,
    }
}

/// What the temperature row of sensor `s` must look like at time `t`.
pub open spec fn is_temperature_row_for(row: MetricRow, t: int, s: SensorReading) -> bool {
    &&& row.time_micros == t
    &&& row.metric_type == MetricType::Temperature
    &&& row.metric_name@ == spec_metric_name(s.label@)
    &&& row.value_centi == spec_round_milli_to_centi(s.temp_milli as int)
    &&& row.unit == Unit::Celsius
}

/// Builds every row of one collection run: the CPU usage row, the memory
/// usage row, then one temperature row per sensor, all stamped with the same
/// collection instant. `None` exactly when the memory usage is undefined
/// (the run fails rather than persist a partial batch).
pub fn collect_rows(
    time_micros: i64,
    cpu_milli: i64,
    used_memory: u64,
    total_memory: u64,
    sensors: &Vec<SensorReading>,
) -> (r: Option<Vec<MetricRow>>)
    requires
        reading_in_range(cpu_milli as int),
        forall|i: int|
            0 <= i < sensors@.len() ==> reading_in_range(#[trigger] sensors@[i].temp_milli as int),
    ensures
        r is Some <==> total_memory > 0 && spec_memory_usage_centi(
            used_memory as int,
            total_memory as int,
        ) <= i64::MAX,
        r matches Some(rows) ==> {
            &&& rows@.len() == 2 + sensors@.len()
            &&& rows@[0].time_micros == time_micros
            &&& rows@[0].metric_type == MetricType::Usage
            &&& rows@[0].metric_name@ == "cpu_usage"@
            &&& rows@[0].value_centi == spec_round_milli_to_centi(cpu_milli as int)
            &&& rows@[0].unit == Unit::Percent
            &&& rows@[1].time_micros == time_micros
            &&& rows@[1].metric_type == MetricType::Usage
            &&& rows@[1].metric_name@ == "memory_usage"@
            &&& rows@[1].value_centi == spec_memory_usage_centi(
                used_memory as int,
                total_memory as int,
            )
            &&& rows@[1].unit == Unit::Percent
            &&& forall|i: int|
                0 <= i < sensors@.len() ==> is_temperature_row_for(
                    #[trigger] rows@[2 + i],
                    time_micros as int,
                    sensors@[i],
                )
            &&& forall|i: int| 0 <= i < rows@.len() ==> #[trigger] rows@[i].time_micros
                == time_micros
        },
{
    let mem_row = match memory_usage_row(time_micros, used_memory, total_memory) {
        None => {
            return None;
        },
        Some(row) => row,
    };
    let mut rows: Vec<MetricRow> = Vec::new();
    rows.push(cpu_usage_row(time_micros, cpu_milli));
    rows.push(mem_row);
    let mut i: usize = 0;
    while i < sensors.len()
        invariant
            i <= sensors@.len(),
            rows@.len() == 2 + i,
            rows@[0].time_micros == time_micros,
            rows@[0].metric_type == MetricType::Usage,
            rows@[0].metric_name@ == "cpu_usage"@,
            rows@[0].value_centi == spec_round_milli_to_centi(cpu_milli as int),
            rows@[0].unit == Unit::Percent,
            rows@[1].time_micros == time_micros,
            rows@[1].metric_type == MetricType::Usage,
            rows@[1].metric_name@ == "memory_usage"@,
            rows@[1].value_centi == spec_memory_usage_centi(
                used_memory as int,
                total_memory as int,
            ),
            rows@[1].unit == Unit::Percent,
            forall|k: int|
                0 <= k < i ==> is_temperature_row_for(
                    #[trigger] rows@[2 + k],
                    time_micros as int,
                    sensors@[k],
                ),
            forall|k: int|
                0 <= k < sensors@.len() ==> reading_in_range(
                    #[trigger] sensors@[k].temp_milli as int,
                ),
        decreases sensors@.len() - i,
    {
        let s = &sensors[i];
        rows.push(temperature_row(time_micros, s.label.as_str(), s.temp_milli));
        i += 1;
    }
    proof {
        assert forall|k: int| 0 <= k < rows@.len() implies #[trigger] rows@[k].time_micros
            == time_micros by {
            if k >= 2 {
                let j = k - 2;
                assert(is_temperature_row_for(rows@[2 + j], time_micros as int, sensors@[j]));
                assert(rows@[2 + j] == rows@[k]);
            }
        }
    }
    Some(rows)
}

} // verus!
