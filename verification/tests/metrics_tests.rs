use sysmetrics::metrics::MetricRow;
use sysmetrics::metrics::MetricType;
use sysmetrics::metrics::SensorReading;
use sysmetrics::metrics::Unit;
use sysmetrics::metrics::cpu_usage_row;
use sysmetrics::metrics::collect_rows;
use sysmetrics::metrics::memory_usage_centi;
use sysmetrics::metrics::memory_usage_row;
use sysmetrics::metrics::temperature_row;

#[test]
fn memory_usage_half_of_total() {
    // total 16000, used 8000 -> 50.00 %
    assert_eq!(memory_usage_centi(8000, 16000), Some(5000));
}

#[test]
fn memory_usage_rounds_to_two_decimals() {
    // 1/3 -> 33.33 %
    assert_eq!(memory_usage_centi(1, 3), Some(3333));
    // 2/3 -> 66.67 %
    assert_eq!(memory_usage_centi(2, 3), Some(6667));
}

#[test]
fn memory_usage_undefined_without_total() {
    assert_eq!(memory_usage_centi(8000, 0), None);
    assert_eq!(memory_usage_centi(0, 0), None);
}

#[test]
fn memory_usage_rejects_unrepresentable_ratio() {
    assert_eq!(memory_usage_centi(u64::MAX, 1), None);
}

#[test]
fn cpu_row_is_rounded_usage_in_percent() {
    let row = cpu_usage_row(7, 33333);
    assert_eq!(row.time_micros, 7);
    assert_eq!(row.metric_type, MetricType::Usage);
    assert_eq!(row.metric_name, "cpu_usage");
    assert_eq!(row.value_centi, 3333);
    assert_eq!(row.unit, Unit::Percent);
}

#[test]
fn memory_row_is_rounded_ratio_in_percent() {
    let row = memory_usage_row(7, 8000, 16000).unwrap();
    assert_eq!(row.time_micros, 7);
    assert_eq!(row.metric_type, MetricType::Usage);
    assert_eq!(row.metric_name, "memory_usage");
    assert_eq!(row.value_centi, 5000);
    assert_eq!(row.unit, Unit::Percent);
}

#[test]
fn memory_row_fails_without_total() {
    assert_eq!(memory_usage_row(7, 8000, 0), None);
}

#[test]
fn nvme_sensor_row() {
    // "nvme Composite" at 45.678 C -> (temperature, nvme_temperature, 45.68, celsius)
    let row = temperature_row(7, "nvme Composite", 45678);
    assert_eq!(row.metric_type, MetricType::Temperature);
    assert_eq!(row.metric_name, "nvme_temperature");
    assert_eq!(row.value_centi, 4568);
    assert_eq!(row.unit, Unit::Celsius);
}

#[test]
fn unclassified_sensor_row_keeps_label() {
    // "fan1" at 30.0 C -> (temperature, "fan1", 30.00, celsius)
    let row = temperature_row(7, "fan1", 30000);
    assert_eq!(row.metric_type, MetricType::Temperature);
    assert_eq!(row.metric_name, "fan1");
    assert_eq!(row.value_centi, 3000);
    assert_eq!(row.unit, Unit::Celsius);
}

#[test]
fn metric_type_and_unit_labels() {
    assert_eq!(MetricType::Usage.as_str(), "usage");
    assert_eq!(MetricType::Temperature.as_str(), "temperature");
    assert_eq!(Unit::Percent.as_str(), "percent");
    assert_eq!(Unit::Celsius.as_str(), "celsius");
}

#[test]
fn collects_one_run() {
    let sensors = vec![
        SensorReading { label: String::from("amdgpu edge"), temp_milli: 51125 },
        SensorReading { label: String::from("fan1"), temp_milli: 30000 },
    ];
    let rows: Vec<MetricRow> = collect_rows(99, 33333, 8000, 16000, &sensors).unwrap();
    assert_eq!(rows.len(), 4);
    assert_eq!(rows[0].metric_name, "cpu_usage");
    assert_eq!(rows[0].value_centi, 3333);
    assert_eq!(rows[1].metric_name, "memory_usage");
    assert_eq!(rows[1].value_centi, 5000);
    assert_eq!(rows[2].metric_name, "gpu_temperature");
    assert_eq!(rows[2].value_centi, 5113);
    assert_eq!(rows[3].metric_name, "fan1");
    assert_eq!(rows[3].value_centi, 3000);
    // every row of one run carries the same collection instant
    for row in &rows {
        assert_eq!(row.time_micros, 99);
    }
}

#[test]
fn collects_nothing_when_memory_is_undefined() {
    let sensors: Vec<SensorReading> = vec![];
    assert_eq!(collect_rows(99, 0, 0, 0, &sensors), None);
}
