use ternary_sensor::{AnomalyLevel, TernaryClass};

#[test]
fn test_ternary_class_values() {
    assert_eq!(TernaryClass::Low.to_i8(), -1);
    assert_eq!(TernaryClass::Normal.to_i8(), 0);
    assert_eq!(TernaryClass::High.to_i8(), 1);
}

#[test]
fn from_i8_decodes_the_three_digits() {
    assert_eq!(TernaryClass::from_i8(-1), Some(TernaryClass::Low));
    assert_eq!(TernaryClass::from_i8(0), Some(TernaryClass::Normal));
    assert_eq!(TernaryClass::from_i8(1), Some(TernaryClass::High));
}

#[test]
fn from_i8_rejects_other_digits() {
    assert_eq!(TernaryClass::from_i8(2), None);
    assert_eq!(TernaryClass::from_i8(-2), None);
    assert_eq!(TernaryClass::from_i8(i8::MIN), None);
    assert_eq!(TernaryClass::from_i8(i8::MAX), None);
}

#[test]
fn digit_round_trip() {
    for c in [TernaryClass::Low, TernaryClass::Normal, TernaryClass::High] {
        assert_eq!(TernaryClass::from_i8(c.to_i8()), Some(c));
    }
}

#[test]
fn decide_by_thresholds() {
    // value 15, 35, 25 against bounds 20..30
    assert_eq!(TernaryClass::decide(false, 15.0 < 20.0, 15.0 > 30.0), TernaryClass::Low);
    assert_eq!(TernaryClass::decide(false, 35.0 < 20.0, 35.0 > 30.0), TernaryClass::High);
    assert_eq!(TernaryClass::decide(false, 25.0 < 20.0, 25.0 > 30.0), TernaryClass::Normal);
}

#[test]
fn decide_degenerate_spread_is_normal() {
    assert_eq!(TernaryClass::decide(true, true, false), TernaryClass::Normal);
    assert_eq!(TernaryClass::decide(true, false, true), TernaryClass::Normal);
}

#[test]
fn decide_below_wins_over_above() {
    assert_eq!(TernaryClass::decide(false, true, true), TernaryClass::Low);
}

#[test]
fn decide_statistical_z_score() {
    // value 100, mean 50, std 10: z = 5
    let z: f64 = (100.0 - 50.0) / 10.0;
    assert_eq!(TernaryClass::decide(false, z < -1.0, z > 1.0), TernaryClass::High);
}

fn level(value: f64) -> AnomalyLevel {
    let (mean, std, suspicious, alert) = (50.0f64, 10.0f64, 1.5f64, 3.0f64);
    let z = (value - mean).abs() / std;
    AnomalyLevel::decide(std <= 0.0, z > alert, z > suspicious)
}

#[test]
fn anomaly_levels_by_z_score() {
    assert_eq!(level(52.0), AnomalyLevel::Normal);
    assert_eq!(level(75.0), AnomalyLevel::Suspicious);
    assert_eq!(level(90.0), AnomalyLevel::Alert);
    assert_eq!(level(10.0), AnomalyLevel::Alert);
}

#[test]
fn anomaly_degenerate_spread_is_normal() {
    assert_eq!(AnomalyLevel::decide(true, true, true), AnomalyLevel::Normal);
}

#[test]
fn anomaly_alert_wins_over_suspicious() {
    assert_eq!(AnomalyLevel::decide(false, true, true), AnomalyLevel::Alert);
    assert_eq!(AnomalyLevel::decide(false, false, true), AnomalyLevel::Suspicious);
    assert_eq!(AnomalyLevel::decide(false, false, false), AnomalyLevel::Normal);
}
