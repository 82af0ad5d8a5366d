use oatmeal_audio::dsp::{
    apply_gate, highpass_step, isqrt, rms_prefix, scale_gain, soft_limit_sample, system_gain,
    voice_gain, LIMITER_CEILING, LIMITER_OVERSHOOT, SYSTEM_GATE_THRESHOLD, VOICE_GATE_THRESHOLD,
};
use oatmeal_audio::FULL_SCALE;

#[test]
fn gate_zeroes_quiet_samples_only() {
    assert_eq!(apply_gate(4_999, VOICE_GATE_THRESHOLD), 0);
    assert_eq!(apply_gate(-4_999, VOICE_GATE_THRESHOLD), 0);
    assert_eq!(apply_gate(5_000, VOICE_GATE_THRESHOLD), 5_000);
    assert_eq!(apply_gate(-5_000, VOICE_GATE_THRESHOLD), -5_000);
    assert_eq!(apply_gate(2_999, SYSTEM_GATE_THRESHOLD), 0);
    assert_eq!(apply_gate(3_000, SYSTEM_GATE_THRESHOLD), 3_000);
    assert_eq!(apply_gate(0, SYSTEM_GATE_THRESHOLD), 0);
}

#[test]
fn highpass_tracks_and_removes_dc() {
    let mut state: i64 = 0;
    let y1 = highpass_step(&mut state, 10_000);
    assert_eq!(state, 100);
    assert_eq!(y1, 9_900);
    let y2 = highpass_step(&mut state, 10_000);
    assert_eq!(state, 199);
    assert_eq!(y2, 9_801);
}

#[test]
fn gain_scaling_truncates_toward_zero() {
    assert_eq!(scale_gain(9_900, 120), 11_880);
    assert_eq!(scale_gain(5, 120), 6);
    assert_eq!(scale_gain(-5, 120), -6);
    assert_eq!(scale_gain(1, 60), 0);
}

#[test]
fn voice_gain_boosts_quiet_and_attenuates_loud() {
    assert_eq!(voice_gain(9_999), 200);
    assert_eq!(voice_gain(10_000), 120);
    assert_eq!(voice_gain(500_000), 120);
    assert_eq!(voice_gain(500_001), 60);
}

#[test]
fn system_gain_is_always_an_attenuation() {
    assert_eq!(system_gain(0), 40);
    assert_eq!(system_gain(300_000), 40);
    assert_eq!(system_gain(300_001), 20);
}

#[test]
fn isqrt_exact_values() {
    assert_eq!(isqrt(0), 0);
    assert_eq!(isqrt(1), 1);
    assert_eq!(isqrt(3), 1);
    assert_eq!(isqrt(4), 2);
    assert_eq!(isqrt(99), 9);
    assert_eq!(isqrt(100), 10);
    assert_eq!(isqrt(100_000_000), 10_000);
    assert_eq!(isqrt(1_000_000_000_000), 1_000_000);
}

#[test]
fn rms_of_constant_signal_is_its_magnitude() {
    let buf: Vec<i64> = vec![10_000; 400];
    assert_eq!(rms_prefix(&buf, 400), 10_000);
    assert_eq!(rms_prefix(&buf, 0), 0);
    let neg: Vec<i64> = vec![-400_000; 64];
    assert_eq!(rms_prefix(&neg, 64), 400_000);
}

#[test]
fn limiter_passes_signal_within_ceiling() {
    assert_eq!(soft_limit_sample(0), 0);
    assert_eq!(soft_limit_sample(949_999), 949_999);
    assert_eq!(soft_limit_sample(LIMITER_CEILING), LIMITER_CEILING);
    assert_eq!(soft_limit_sample(-LIMITER_CEILING), -LIMITER_CEILING);
}

#[test]
fn limiter_compresses_peaks_onto_saturating_curve() {
    assert_eq!(soft_limit_sample(950_001), 950_000);
    assert_eq!(soft_limit_sample(FULL_SCALE), 975_000);
    assert_eq!(soft_limit_sample(-FULL_SCALE), -975_000);
    assert_eq!(soft_limit_sample(8_000_000), 999_647);
    assert_eq!(soft_limit_sample(100_000_000), 999_974);
}

#[test]
fn limiter_never_exceeds_ceiling_plus_allowance() {
    let allowance = LIMITER_CEILING + LIMITER_OVERSHOOT;
    let mut m: i64 = -100_000_000;
    while m <= 100_000_000 {
        let r = soft_limit_sample(m);
        assert!(-allowance <= r && r <= allowance, "limiter exceeded allowance at {}", m);
        m += 999_983;
    }
}
