use oatmeal_audio::adapter::{choose_input_config, ChosenConfig, ConfigCandidate, SampleFormat};
use oatmeal_audio::errors::CaptureError;

fn cand(channels: u16, min_rate: u32, max_rate: u32, format: SampleFormat) -> ConfigCandidate {
    ConfigCandidate { channels, min_rate, max_rate, format }
}

#[test]
fn config_prefers_exact_mono_at_the_desired_rate() {
    let cands = vec![
        cand(2, 8_000, 96_000, SampleFormat::F32),
        cand(1, 8_000, 48_000, SampleFormat::I16),
        cand(1, 8_000, 48_000, SampleFormat::F32),
    ];
    let chosen = choose_input_config(&cands, None, 16_000).unwrap();
    assert_eq!(chosen, ChosenConfig { rate: 16_000, channels: 1, format: SampleFormat::I16 });
}

#[test]
fn config_falls_back_to_the_device_default() {
    let cands = vec![
        cand(2, 8_000, 96_000, SampleFormat::F32),
        cand(1, 44_100, 48_000, SampleFormat::F32),
    ];
    let default_cfg = ChosenConfig { rate: 44_100, channels: 2, format: SampleFormat::F32 };
    let chosen = choose_input_config(&cands, Some(default_cfg), 16_000).unwrap();
    assert_eq!(chosen, default_cfg);
}

#[test]
fn config_rejects_an_unsupported_format() {
    let cands = vec![cand(1, 8_000, 48_000, SampleFormat::Other)];
    let r = choose_input_config(&cands, None, 16_000);
    assert_eq!(r, Err(CaptureError::UnsupportedSampleFormat));
    let default_cfg = ChosenConfig { rate: 44_100, channels: 2, format: SampleFormat::Other };
    let r2 = choose_input_config(&Vec::new(), Some(default_cfg), 16_000);
    assert_eq!(r2, Err(CaptureError::UnsupportedSampleFormat));
}

#[test]
fn config_fails_when_nothing_is_usable() {
    let r = choose_input_config(&Vec::new(), None, 16_000);
    assert_eq!(r, Err(CaptureError::DeviceUnavailable));
}
