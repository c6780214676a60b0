use sysmetrics::rounding::round_milli_to_centi;

#[test]
fn rounds_cpu_reading_to_two_decimals() {
    // 33.333 % -> 33.33 %
    assert_eq!(round_milli_to_centi(33333), 3333);
}

#[test]
fn rounds_temperature_half_up() {
    // 45.678 C -> 45.68 C
    assert_eq!(round_milli_to_centi(45678), 4568);
}

#[test]
fn rounds_exact_half_away_from_zero() {
    assert_eq!(round_milli_to_centi(125), 13);
    assert_eq!(round_milli_to_centi(-125), -13);
}

#[test]
fn rounding_is_idempotent_on_samples() {
    let samples: Vec<i64> = vec![0, 1, 4, 5, 6, 125, 33333, 45678, -45678, 999999, -1];
    for m in samples {
        let once = round_milli_to_centi(m);
        let twice = round_milli_to_centi(once * 10);
        assert_eq!(twice, once);
    }
}

#[test]
fn keeps_values_already_at_centi_precision() {
    // 30.0 stays 30.00
    assert_eq!(round_milli_to_centi(30000), 3000);
    assert_eq!(round_milli_to_centi(-30000), -3000);
}
