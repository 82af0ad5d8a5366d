use oatmeal_audio::errors::CaptureError;
use oatmeal_audio::runtime::{
    aggregation_path, AggregationPath, AudioRuntime, CaptureState, StartAction, StopAction,
    StreamOutcome,
};
use oatmeal_audio::selector::{AudioSource, DeviceDescriptor};

fn catalog() -> Vec<DeviceDescriptor> {
    vec![DeviceDescriptor {
        name: "Studio Mic".as_bytes().to_vec(),
        is_input: true,
        channels: 1,
        min_rate: 8_000,
        max_rate: 48_000,
    }]
}

fn speakers() -> Vec<u8> {
    "Built-in Speakers".as_bytes().to_vec()
}

#[test]
fn start_with_no_input_devices_fails_and_stays_idle() {
    // No input devices enumerated: Start returns NoInputDevice and
    // is_capturing() remains false.
    let mut rt = AudioRuntime::new();
    let inputs: Vec<DeviceDescriptor> = Vec::new();
    let out = speakers();
    let r = rt.start(&inputs, None, Some(&out), false);
    assert_eq!(r, Err(CaptureError::NoInputDevice));
    assert!(!rt.is_capturing());
    assert_eq!(rt.state(), CaptureState::Idle);
    assert!(rt.session().is_none());
}

#[test]
fn start_is_idempotent_while_capturing() {
    // Two starts in a row: the first opens the one session, the second
    // succeeds and leaves exactly that session in place.
    let mut rt = AudioRuntime::new();
    let inputs = catalog();
    let out = speakers();
    let action = rt.start(&inputs, Some(0), Some(&out), false).unwrap();
    let plan = match action {
        StartAction::Open(p) => p,
        StartAction::AlreadyActive => panic!("first start must open a session"),
    };
    assert_eq!(plan.device_index, 0);
    assert_eq!(plan.source, AudioSource::Microphone);
    assert!(rt.finish_start(StreamOutcome::Started).is_ok());
    assert!(rt.is_capturing());
    let again = rt.start(&inputs, Some(0), Some(&out), false).unwrap();
    assert_eq!(again, StartAction::AlreadyActive);
    assert!(rt.is_capturing());
    assert_eq!(rt.session(), Some(plan));
    assert_eq!(rt.state(), CaptureState::Capturing);
}

#[test]
fn stop_is_idempotent_while_idle() {
    let mut rt = AudioRuntime::new();
    assert_eq!(rt.stop(), StopAction::AlreadyIdle);
    assert_eq!(rt.stop(), StopAction::AlreadyIdle);
    assert!(!rt.is_capturing());
    assert_eq!(rt.state(), CaptureState::Idle);
}

#[test]
fn stop_tears_down_a_live_session() {
    let mut rt = AudioRuntime::new();
    let inputs = catalog();
    let out = speakers();
    rt.start(&inputs, Some(0), Some(&out), false).unwrap();
    rt.finish_start(StreamOutcome::Started).unwrap();
    assert_eq!(rt.stop(), StopAction::Teardown);
    assert_eq!(rt.state(), CaptureState::Stopping);
    rt.finish_stop();
    assert!(!rt.is_capturing());
    assert_eq!(rt.state(), CaptureState::Idle);
    assert_eq!(rt.stop(), StopAction::AlreadyIdle);
}

#[test]
fn busy_device_reverts_the_start_and_surfaces_the_reason() {
    let mut rt = AudioRuntime::new();
    let inputs = catalog();
    let out = speakers();
    rt.start(&inputs, Some(0), Some(&out), false).unwrap();
    let r = rt.finish_start(StreamOutcome::Busy);
    assert_eq!(r, Err(CaptureError::DeviceUnavailable));
    assert!(!rt.is_capturing());
    assert_eq!(rt.state(), CaptureState::Idle);
    // The runtime keeps accepting start commands after a failure.
    assert!(rt.start(&inputs, Some(0), Some(&out), false).is_ok());
}

#[test]
fn failed_stream_start_reverts_and_surfaces_the_reason() {
    let mut rt = AudioRuntime::new();
    let inputs = catalog();
    let out = speakers();
    rt.start(&inputs, Some(0), Some(&out), false).unwrap();
    let r = rt.finish_start(StreamOutcome::Failed);
    assert_eq!(r, Err(CaptureError::StreamStartFailed));
    assert!(!rt.is_capturing());
    assert_eq!(rt.state(), CaptureState::Idle);
}

#[test]
fn start_during_a_transition_is_refused_as_benign() {
    let mut rt = AudioRuntime::new();
    let inputs = catalog();
    let out = speakers();
    rt.start(&inputs, Some(0), Some(&out), false).unwrap();
    let r = rt.start(&inputs, Some(0), Some(&out), false);
    assert_eq!(r, Err(CaptureError::AlreadyCapturing));
    assert_eq!(rt.state(), CaptureState::Starting);
}

#[test]
fn error_messages_are_specific() {
    assert_eq!(CaptureError::NoInputDevice.message(), "no input device available");
    assert_eq!(CaptureError::UnsupportedSampleFormat.message(), "unsupported sample format");
    assert_eq!(
        CaptureError::DeviceUnavailable.message(),
        "failed to determine a usable input configuration"
    );
    assert_eq!(CaptureError::AlreadyCapturing.message(), "already capturing");
    assert_eq!(CaptureError::StreamStartFailed.message(), "failed to start input stream");
}

#[test]
fn mixing_requires_both_streams_open() {
    assert_eq!(aggregation_path(true, true), AggregationPath::Mixed);
    assert_eq!(aggregation_path(true, false), AggregationPath::Single);
    assert_eq!(aggregation_path(false, true), AggregationPath::Single);
    assert_eq!(aggregation_path(false, false), AggregationPath::Single);
}
