use grow_rust::HardwareInitError;
use grow_rust::MoistureSensor;
use grow_rust::PulseCounter;
use grow_rust::pin_for_channel;

const SEC_US: u64 = 1_000_000;

#[test]
fn rate_is_count_over_elapsed() {
    // Three edges inside the window; the third arrives 1.5 s after the
    // window opened and closes it: rate = 3 pulses / 1.5 s = 2 pulses/s.
    let mut c = PulseCounter::new(0);
    c.on_edge(200_000);
    c.on_edge(900_000);
    assert_eq!(c.rate_milli, 0);
    assert!(!c.has_new_sample());
    c.on_edge(1_500_000);
    assert_eq!(c.rate_milli, 2_000);
    assert!(c.has_new_sample());
    assert_eq!(c.edge_count, 0);
    assert_eq!(c.window_start_us, 1_500_000);
}

#[test]
fn rate_window_is_wall_clock_anchored() {
    // A single edge long after the window opened: the window spans the
    // actual elapsed time, 4 s, not the nominal second.
    let mut c = PulseCounter::new(0);
    c.on_edge(4 * SEC_US);
    assert_eq!(c.rate_milli, 250);
}

#[test]
fn history_caps_at_200_newest_first() {
    // Window i closes with i+1 edges over exactly one second, so its rate
    // is (i+1) pulses/s. After 201 closes the ring holds the 200 newest,
    // newest first, and the first window's rate of 1 pulse/s is gone.
    let mut c = PulseCounter::new(0);
    for i in 0..201u64 {
        let start = c.window_start_us;
        for j in 0..i {
            c.on_edge(start + 1 + j);
        }
        c.on_edge(start + SEC_US);
        assert_eq!(c.rate_milli, (i + 1) * 1_000);
        assert!(c.history.len() <= 200);
    }
    let snapshot = c.history_snapshot();
    assert_eq!(snapshot.len(), 200);
    assert_eq!(snapshot[0], 201_000);
    assert_eq!(snapshot[199], 2_000);
    assert!(!snapshot.contains(&1_000));
}

#[test]
fn saturation_clamped_for_any_rate() {
    // Clamping holds at both ends for both calibration orientations.
    let rates: [u64; 6] = [0, 700, 14_150, 27_600, 50_000, u64::MAX];
    for &rate in rates.iter() {
        for &(wet, dry) in [(700u64, 27_600u64), (27_600, 700), (0, u64::MAX)].iter() {
            let mut sensor = make_sensor(Some(wet), Some(dry));
            sensor.sampler.rate_milli = rate;
            let sat = sensor.get_saturation().expect("calibrated sensor");
            assert!(sat <= 1000, "rate {rate} wet {wet} dry {dry} gave {sat}");
        }
    }
}

#[test]
fn moisture_idempotent_but_clears_flag() {
    let mut sensor = make_sensor(None, None);
    force_rate(&mut sensor, 5_000);
    assert!(sensor.has_new_data());
    let first = sensor.get_moisture();
    assert!(!sensor.has_new_data());
    let second = sensor.get_moisture();
    assert_eq!(first, 5_000);
    assert_eq!(first, second);
    assert!(!sensor.has_new_data());
}

#[test]
fn inactive_when_no_recent_edge() {
    let mut sensor = make_sensor(None, None);
    force_rate(&mut sensor, 5_000);
    let last = sensor.sampler.last_edge_us;
    // Rate is nonzero and inside the sanity band, but the last edge is a
    // full second old: not active.
    assert!(sensor.is_active(last + SEC_US / 2));
    assert!(!sensor.is_active(last + SEC_US));
    assert!(!sensor.is_active(last + 10 * SEC_US));
}

#[test]
fn inactive_outside_sanity_band() {
    let mut sensor = make_sensor(None, None);
    let now = sensor.sampler.last_edge_us;
    // Rate zero: never active.
    assert!(!sensor.is_active(now));
    // Rate at or above 28 pulses/s: a saturated or floating line.
    force_rate(&mut sensor, 28_000);
    let last = sensor.sampler.last_edge_us;
    assert!(!sensor.is_active(last + 1));
    force_rate(&mut sensor, 27_999);
    let last = sensor.sampler.last_edge_us;
    assert!(sensor.is_active(last + 1));
}

#[test]
fn saturation_midpoint() {
    // wet 0.7, dry 27.6, rate at the midpoint 14.15 pulses/s: exactly half.
    let mut sensor = make_sensor(None, None);
    force_rate(&mut sensor, 14_150);
    assert_eq!(sensor.get_saturation(), Some(500));
}

#[test]
fn saturation_reference_points_and_clamp() {
    let mut sensor = make_sensor(None, None);
    force_rate(&mut sensor, 27_600);
    assert_eq!(sensor.get_saturation(), Some(0));
    force_rate(&mut sensor, 700);
    assert_eq!(sensor.get_saturation(), Some(1000));
    // 50 pulses/s is numerically below the dry point's saturation: with
    // dry > wet a faster pulse train means drier, so it clamps to 0.
    force_rate(&mut sensor, 50_000);
    assert_eq!(sensor.get_saturation(), Some(0));
}

#[test]
fn degenerate_calibration_reads_none() {
    let mut sensor = make_sensor(Some(5_000), Some(5_000));
    force_rate(&mut sensor, 5_000);
    assert!(sensor.has_new_data());
    assert_eq!(sensor.get_saturation(), None);
    // The read still cleared the flag, as any saturation read does.
    assert!(!sensor.has_new_data());
    assert_eq!(sensor.get_history(), None);
}

#[test]
fn dry_point_snapshot_is_not_retroactive() {
    let mut sensor = make_sensor(None, None);
    force_rate(&mut sensor, 9_000);
    sensor.set_dry_point(None);
    assert_eq!(sensor.dry_point_milli, 9_000);
    // The live rate moves on; the stored dry point does not.
    force_rate(&mut sensor, 3_000);
    assert_eq!(sensor.get_moisture(), 3_000);
    assert_eq!(sensor.dry_point_milli, 9_000);
}

#[test]
fn wet_point_explicit_and_snapshot() {
    let mut sensor = make_sensor(None, None);
    assert_eq!(sensor.wet_point_milli, 700);
    assert_eq!(sensor.dry_point_milli, 27_600);
    sensor.set_wet_point(Some(1_200));
    assert_eq!(sensor.wet_point_milli, 1_200);
    force_rate(&mut sensor, 800);
    sensor.set_wet_point(None);
    assert_eq!(sensor.wet_point_milli, 800);
}

#[test]
fn history_is_calibrated_per_entry() {
    let mut sensor = make_sensor(None, None);
    force_rate(&mut sensor, 27_600);
    force_rate(&mut sensor, 14_150);
    force_rate(&mut sensor, 700);
    assert!(sensor.has_new_data());
    let history = sensor.get_history().expect("calibrated sensor");
    assert_eq!(history, vec![1000, 500, 0]);
    // Reading the history does not clear the new-data flag.
    assert!(sensor.has_new_data());
}

#[test]
fn empty_history_is_empty() {
    let counter = PulseCounter::new(0);
    assert_eq!(counter.history_snapshot(), Vec::<u64>::new());
    let sensor = make_sensor(None, None);
    assert_eq!(sensor.get_history(), Some(vec![]));
}

#[test]
fn saturation_with_inverted_calibration() {
    // A sensor whose rate rises with moisture: wet point above dry point.
    let mut sensor = make_sensor(Some(27_600), Some(700));
    force_rate(&mut sensor, 14_150);
    assert_eq!(sensor.get_saturation(), Some(500));
    force_rate(&mut sensor, 700);
    assert_eq!(sensor.get_saturation(), Some(0));
    force_rate(&mut sensor, 27_600);
    assert_eq!(sensor.get_saturation(), Some(1000));
    force_rate(&mut sensor, 50_000);
    assert_eq!(sensor.get_saturation(), Some(1000));
}

#[test]
fn saturation_truncates_toward_zero() {
    // (3000 - 1000) * 1000 / (3000 - 0) = 666.66..., truncated to 666.
    let mut sensor = make_sensor(Some(0), Some(3_000));
    force_rate(&mut sensor, 1_000);
    assert_eq!(sensor.get_saturation(), Some(666));
}

#[test]
fn new_sample_peek_is_non_destructive() {
    let mut sensor = make_sensor(None, None);
    assert!(!sensor.has_new_data());
    force_rate(&mut sensor, 2_000);
    assert!(sensor.has_new_data());
    assert!(sensor.has_new_data());
    sensor.get_moisture();
    assert!(!sensor.has_new_data());
}

#[test]
fn channel_pin_mapping() {
    assert_eq!(pin_for_channel(1), Ok(23));
    assert_eq!(pin_for_channel(2), Ok(8));
    assert_eq!(pin_for_channel(3), Ok(25));
    assert_eq!(pin_for_channel(4), Ok(4));
    assert_eq!(pin_for_channel(0), Err(HardwareInitError::BadChannel));
    assert_eq!(pin_for_channel(5), Err(HardwareInitError::BadChannel));
}

#[test]
fn sensor_construction() {
    let (sensor, pin) = MoistureSensor::new(3, None, Some(20_000), 77).expect("valid channel");
    assert_eq!(pin, 25);
    assert_eq!(sensor.wet_point_milli, 700);
    assert_eq!(sensor.dry_point_milli, 20_000);
    assert_eq!(sensor.sampler.window_start_us, 77);
    assert_eq!(sensor.sampler.rate_milli, 0);
    assert!(!sensor.has_new_data());
    match MoistureSensor::new(9, None, None, 0) {
        Err(HardwareInitError::BadChannel) => {},
        other => panic!("expected a bad-channel error, got {other:?}"),
    }
}

#[test]
fn range_is_signed_span() {
    let sensor = make_sensor(None, None);
    assert_eq!(sensor.get_range(), -26_900);
    let inverted = make_sensor(Some(27_600), Some(700));
    assert_eq!(inverted.get_range(), 26_900);
}

/// A sensor on channel 1, ignoring the pin, clocks anchored at zero.
fn make_sensor(wet: Option<u64>, dry: Option<u64>) -> MoistureSensor {
    let (sensor, _pin) = MoistureSensor::new(1, wet, dry, 0).expect("channel 1 is valid");
    sensor
}

/// Drives edges so that the sampler's next window closes with exactly the
/// given rate: `rate_milli` pulses over a window of exactly 1000 seconds
/// come to `rate_milli` milli-pulses per second.
fn force_rate(sensor: &mut MoistureSensor, rate_milli: u64) {
    // The early edges sit in the first second so none closes the window.
    assert!(0 < rate_milli && rate_milli < SEC_US);
    let start = sensor.sampler.window_start_us;
    for j in 0..rate_milli - 1 {
        sensor.record_edge(start + 1 + j);
    }
    sensor.record_edge(start + 1_000 * SEC_US);
    assert_eq!(sensor.sampler.rate_milli, rate_milli);
}
