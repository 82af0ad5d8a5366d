use oatmeal_audio::selector::{
    name_contains, output_is_headphones, select, AudioSource, CapturePlan, DeviceDescriptor,
};
use oatmeal_audio::errors::CaptureError;

fn input(name: &str) -> DeviceDescriptor {
    DeviceDescriptor {
        name: name.as_bytes().to_vec(),
        is_input: true,
        channels: 1,
        min_rate: 8_000,
        max_rate: 48_000,
    }
}

fn bytes(name: &str) -> Vec<u8> {
    name.as_bytes().to_vec()
}

#[test]
fn name_matching_ignores_ascii_case() {
    assert!(name_contains(&bytes("AIRPODS PRO"), "airpods".as_bytes()));
    assert!(name_contains(&bytes("AirPods Pro"), "airpods".as_bytes()));
    assert!(!name_contains(&bytes("Studio Display"), "airpods".as_bytes()));
    assert!(name_contains(&bytes("x"), "".as_bytes()));
    assert!(!name_contains(&bytes(""), "airpods".as_bytes()));
}

#[test]
fn builtin_speakers_are_not_headphones() {
    assert!(!output_is_headphones(Some(&bytes("MacBook Pro Speakers"))));
    assert!(!output_is_headphones(Some(&bytes("Built-in Output"))));
    assert!(!output_is_headphones(Some(&bytes("Internal Speakers"))));
    assert!(!output_is_headphones(None));
    assert!(output_is_headphones(Some(&bytes("AirPods Pro"))));
    assert!(output_is_headphones(Some(&bytes("WH-1000XM4"))));
}

#[test]
fn selector_uses_default_microphone_without_headphones() {
    let inputs = vec![input("MacBook Pro Microphone"), input("Aggregate Device")];
    let plan = select(&inputs, Some(0), Some(&bytes("MacBook Pro Speakers")), false).unwrap();
    assert_eq!(
        plan,
        CapturePlan {
            device_index: 0,
            source: AudioSource::Microphone,
            system_audio_missing: false
        }
    );
}

#[test]
fn selector_forced_microphone_ignores_loopback() {
    // Headphones detected and a loopback present: forcing the microphone
    // must still select the microphone role.
    let inputs = vec![input("MacBook Pro Microphone"), input("Aggregate Device")];
    let plan = select(&inputs, Some(0), Some(&bytes("AirPods Pro")), true).unwrap();
    assert_eq!(plan.source, AudioSource::Microphone);
    assert_eq!(plan.device_index, 0);
    assert!(!plan.system_audio_missing);
}

#[test]
fn selector_forced_microphone_prefers_wearable() {
    let inputs = vec![input("MacBook Pro Microphone"), input("AirPods Pro")];
    let plan = select(&inputs, Some(0), Some(&bytes("AirPods Pro")), true).unwrap();
    assert_eq!(plan.device_index, 1);
    assert_eq!(plan.source, AudioSource::Microphone);
}

#[test]
fn selector_prefers_wearable_microphone_with_headphones() {
    let inputs = vec![
        input("MacBook Pro Microphone"),
        input("AirPods Pro"),
        input("Aggregate Device"),
    ];
    let plan = select(&inputs, Some(0), Some(&bytes("AirPods Pro")), false).unwrap();
    assert_eq!(plan.device_index, 1);
    assert_eq!(plan.source, AudioSource::Microphone);
}

#[test]
fn selector_falls_back_to_loopback_device() {
    let inputs = vec![input("MacBook Pro Microphone"), input("Aggregate Device")];
    let plan = select(&inputs, Some(0), Some(&bytes("USB Headset")), false).unwrap();
    assert_eq!(plan.device_index, 1);
    assert_eq!(plan.source, AudioSource::SystemAudio);
}

#[test]
fn selector_prefers_aggregate_over_generic_loopback() {
    let inputs = vec![
        input("Mic In"),
        input("Loopback Audio"),
        input("Aggregate Device"),
    ];
    let plan = select(&inputs, Some(0), Some(&bytes("USB Headset")), false).unwrap();
    assert_eq!(plan.device_index, 2);
    assert_eq!(plan.source, AudioSource::SystemAudio);
}

#[test]
fn selector_never_picks_the_known_bad_virtual_device() {
    let inputs = vec![input("Mic In"), input("BlackHole 2ch")];
    let plan = select(&inputs, Some(0), Some(&bytes("USB Headset")), false).unwrap();
    assert_eq!(plan.device_index, 0);
    assert_eq!(plan.source, AudioSource::Microphone);
    assert!(plan.system_audio_missing);
}

#[test]
fn selector_surfaces_missing_system_audio_path() {
    let inputs = vec![input("Studio Mic")];
    let plan = select(&inputs, Some(0), Some(&bytes("Bluetooth Headset")), false).unwrap();
    assert_eq!(plan.device_index, 0);
    assert_eq!(plan.source, AudioSource::Microphone);
    assert!(plan.system_audio_missing);
}

#[test]
fn selector_fails_without_any_input_device() {
    let inputs: Vec<DeviceDescriptor> = Vec::new();
    let r = select(&inputs, None, Some(&bytes("MacBook Pro Speakers")), false);
    assert_eq!(r, Err(CaptureError::NoInputDevice));
    let r2 = select(&inputs, None, Some(&bytes("AirPods Pro")), false);
    assert_eq!(r2, Err(CaptureError::NoInputDevice));
}
