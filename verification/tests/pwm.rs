use modbus_servo::pwm::{deg_to_pulse_us, phase_durations, pulse_for_angle, PwmConfig};

#[test]
fn pulse_at_band_angles() {
    assert_eq!(deg_to_pulse_us(0), 500);
    assert_eq!(deg_to_pulse_us(60), 1500);
    assert_eq!(deg_to_pulse_us(120), 2500);
}

#[test]
fn pulse_clamps_out_of_range_angles() {
    assert_eq!(deg_to_pulse_us(-10), 500);
    assert_eq!(deg_to_pulse_us(300), 2500);
}

#[test]
fn pulse_is_linear_between_anchors() {
    assert_eq!(deg_to_pulse_us(30), 1000);
    assert_eq!(deg_to_pulse_us(90), 2000);
}

#[test]
fn pulse_with_custom_range() {
    let cfg = PwmConfig {
        period_us: 20_000,
        min_us: 1_000,
        max_us: 2_000,
    };
    assert_eq!(pulse_for_angle(&cfg, 0), 1_000);
    assert_eq!(pulse_for_angle(&cfg, 60), 1_500);
    assert_eq!(pulse_for_angle(&cfg, 120), 2_000);
}

#[test]
fn phases_fill_one_period() {
    let cfg = PwmConfig::default();
    let (high, low) = phase_durations(&cfg, 60);
    assert_eq!(high, 1_500);
    assert_eq!(low, 18_500);
    assert_eq!(high + low, 20_000);
}
