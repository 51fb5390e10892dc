use nova_telemetry::sample::Sample;
use nova_telemetry::sample::SampleData;
use nova_telemetry::sample::convert_accel;
use nova_telemetry::sample::convert_baro;
use nova_telemetry::sample::convert_gyro;
use nova_telemetry::stats::accel_magnitude_sq;
use nova_telemetry::stats::aggregate;

#[test]
fn empty_store_has_no_extrema() {
    let samples: Vec<Sample> = Vec::new();
    let r = aggregate(&samples);
    assert_eq!(r.max_accel_magnitude_sq, None);
    assert_eq!(r.min_accel_magnitude_sq, None);
    assert_eq!(r.max_pressure, None);
    assert_eq!(r.min_pressure, None);
}

#[test]
fn gyro_only_store_has_no_extrema() {
    // Gyro samples belong to neither extremum's subset: both stay empty and
    // both conditions are signalled, not defaulted to zero.
    let samples = vec![convert_gyro(1, 2, 3), convert_gyro(-4, 5, -6)];
    let r = aggregate(&samples);
    assert_eq!(r.max_accel_magnitude_sq, None);
    assert_eq!(r.min_accel_magnitude_sq, None);
    assert_eq!(r.max_pressure, None);
    assert_eq!(r.min_pressure, None);
}

#[test]
fn accel_extrema_are_attained() {
    let samples = vec![
        convert_accel(3, 4, 0),
        convert_accel(0, 0, 0),
        convert_accel(-10, 0, 10),
        convert_gyro(1000, 1000, 1000),
    ];
    let r = aggregate(&samples);
    assert_eq!(r.max_accel_magnitude_sq, Some(200));
    assert_eq!(r.min_accel_magnitude_sq, Some(0));
    assert_eq!(r.max_pressure, None);
    assert_eq!(r.min_pressure, None);
}

#[test]
fn pressure_extrema_are_attained() {
    let samples = vec![
        convert_baro(2500, 101325),
        convert_baro(2000, 99000),
        convert_baro(1500, 101500),
    ];
    let r = aggregate(&samples);
    assert_eq!(r.max_pressure, Some(101500));
    assert_eq!(r.min_pressure, Some(99000));
    assert_eq!(r.max_accel_magnitude_sq, None);
    assert_eq!(r.min_accel_magnitude_sq, None);
}

#[test]
fn single_sample_is_both_extrema() {
    let samples = vec![convert_accel(1, 2, 2)];
    let r = aggregate(&samples);
    assert_eq!(r.max_accel_magnitude_sq, Some(9));
    assert_eq!(r.min_accel_magnitude_sq, Some(9));
}

#[test]
fn magnitude_sq_handles_extreme_counts() {
    assert_eq!(accel_magnitude_sq(0, 0, 0), 0);
    assert_eq!(accel_magnitude_sq(3, 4, 12), 169);
    assert_eq!(accel_magnitude_sq(-32768, -32768, -32768), 3 * 1073741824);
    assert_eq!(accel_magnitude_sq(32767, -32768, 32767), 2 * 1073676289 + 1073741824);
}

#[test]
fn magnitude_order_survives_conversion_to_g() {
    // The physical magnitude is sqrt(mag_sq) * 6 / 32767: strictly monotonic
    // in mag_sq, so the sample the aggregator picks as the maximum is also
    // the maximum in g-units.
    let a = accel_magnitude_sq(16383, -16384, 0);
    let b = accel_magnitude_sq(100, 200, 300);
    assert!(a > b);
    let to_g = |m: i64| (m as f64).sqrt() * 6.0 / 32767.0;
    assert!(to_g(a) > to_g(b));
}

#[test]
fn converters_fix_the_tick_counter() {
    assert_eq!(convert_accel(1, 2, 3).ticks_since_last_message, 1);
    assert_eq!(convert_gyro(1, 2, 3).ticks_since_last_message, 1);
    assert_eq!(convert_baro(1, 2).ticks_since_last_message, 1);
}

#[test]
fn baro_converter_is_exact() {
    let s = convert_baro(2500, 101325);
    assert_eq!(
        s.data,
        SampleData::Barometer { temperature: 29815, pressure: 101325 }
    );
    let s = convert_baro(i32::MIN, i32::MAX);
    assert_eq!(
        s.data,
        SampleData::Barometer { temperature: -2147483648 + 27315, pressure: i32::MAX }
    );
}
