use voxter::session::{AudioManager, AudioRecorder, ControlAction, ControlMsg, RecordingMode, StopPlan};
use voxter::speech_viz::SpeechVizState;
use voxter::state::{state_name, OverlayState};

#[test]
fn recorder_refuses_a_second_start() {
    let mut r = AudioRecorder::new();
    assert!(!r.is_recording());
    assert_eq!(r.sample_rate(), 16000);
    assert_eq!(r.channels(), 1);
    assert_eq!(r.prepare_recording(), Ok(()));
    assert!(r.is_recording());
    assert_eq!(r.prepare_recording(), Err("Already recording".to_string()));
    assert_eq!(r.finalize_recording(), Ok(true));
    assert_eq!(r.finalize_recording(), Ok(false));
    assert!(!r.is_recording());
}

#[test]
fn recorder_takes_device_format_or_passes_error() {
    let mut r = AudioRecorder::new();
    assert_eq!(r.configure_from_device(Ok((48000, 2))), Ok(()));
    assert_eq!((r.sample_rate(), r.channels()), (48000, 2));
    assert_eq!(
        r.configure_from_device(Err("No input device available".to_string())),
        Err("No input device available".to_string())
    );
    assert_eq!((r.sample_rate(), r.channels()), (48000, 2));
}

#[test]
fn hold_cycle() {
    let mut m = AudioManager::new();
    let mut v = SpeechVizState::new();
    assert_eq!(m.mode(), RecordingMode::Hold);
    assert_eq!(m.handle_control(ControlMsg::StopHold), ControlAction::Ignore);
    assert_eq!(m.handle_control(ControlMsg::SinglePress), ControlAction::StartHoldRecording);
    assert_eq!(m.start_recording(RecordingMode::Hold, Ok((48000, 1)), &mut v), Ok(true));
    assert!(m.is_recording());
    assert_eq!(m.recorder().sample_rate(), 48000);
    assert_eq!(m.start_recording(RecordingMode::Latch, Ok((16000, 1)), &mut v), Ok(false));
    assert_eq!(m.mode(), RecordingMode::Hold);
    assert_eq!(
        m.handle_control(ControlMsg::SinglePress),
        ControlAction::ShowOverlay(OverlayState::Recording)
    );
    assert_eq!(m.handle_control(ControlMsg::StopHold), ControlAction::StopRecording);
    assert_eq!(m.stop_recording(Some(2_000_000_000), &mut v), StopPlan::Process);
    assert!(!m.is_recording());
    assert_eq!(m.stop_recording(Some(2_000_000_000), &mut v), StopPlan::NotRecording);
}

#[test]
fn latch_cycle() {
    let mut m = AudioManager::new();
    let mut v = SpeechVizState::new();
    assert_eq!(m.switch_to_latch_mode(), Ok(false));
    assert_eq!(m.start_recording(RecordingMode::Hold, Ok((16000, 1)), &mut v), Ok(true));
    assert_eq!(
        m.handle_control(ControlMsg::SwitchToLatch),
        ControlAction::ShowOverlay(OverlayState::RecordingLatch)
    );
    assert_eq!(m.mode(), RecordingMode::Latch);
    assert_eq!(m.handle_control(ControlMsg::SwitchToLatch), ControlAction::Ignore);
    assert_eq!(m.handle_control(ControlMsg::StopHold), ControlAction::Ignore);
    assert_eq!(m.handle_control(ControlMsg::SinglePress), ControlAction::StopRecording);
    assert_eq!(m.stop_recording(Some(899_999_999), &mut v), StopPlan::TooShort);
}

#[test]
fn quit_stops_a_running_recording_first() {
    let mut m = AudioManager::new();
    let mut v = SpeechVizState::new();
    assert_eq!(m.handle_control(ControlMsg::Quit), ControlAction::Quit);
    assert_eq!(m.start_recording(RecordingMode::Latch, Ok((16000, 1)), &mut v), Ok(true));
    assert_eq!(m.handle_control(ControlMsg::Quit), ControlAction::StopAndQuit);
}

#[test]
fn start_with_device_error_keeps_mode_and_stays_idle() {
    let mut m = AudioManager::new();
    let mut v = SpeechVizState::new();
    let r = m.start_recording(RecordingMode::Latch, Err("Failed to get input config: x".to_string()), &mut v);
    assert_eq!(r, Err("Failed to get input config: x".to_string()));
    assert!(!m.is_recording());
    assert_eq!(m.mode(), RecordingMode::Latch);
    assert_eq!(m.recorder().sample_rate(), 16000);
    assert_eq!(m.recorder().channels(), 1);
    assert!(!v.is_active());
}

#[test]
fn start_makes_the_speech_level_live_at_zero_and_stop_when_idle_ends_it() {
    let mut m = AudioManager::new();
    let mut v = SpeechVizState::new();
    v.store_level_bits(0.5f32.to_bits());
    assert_eq!(m.start_recording(RecordingMode::Hold, Ok((44100, 2)), &mut v), Ok(true));
    assert!(v.is_active());
    assert_eq!(v.level_bits(), 0);
    assert_eq!(m.recorder().channels(), 2);
    v.store_level_bits(0.25f32.to_bits());
    assert_eq!(m.start_recording(RecordingMode::Hold, Ok((48000, 1)), &mut v), Ok(false));
    assert_eq!(v.level_bits(), 0.25f32.to_bits());
    assert_eq!(m.stop_recording(Some(1_000_000_000), &mut v), StopPlan::Process);
    assert!(v.is_active());
    assert_eq!(m.stop_recording(None, &mut v), StopPlan::NotRecording);
    assert!(!v.is_active());
    assert_eq!(v.level_bits(), 0.25f32.to_bits());
}

#[test]
fn stop_threshold_is_nine_tenths_of_a_second() {
    let mut m = AudioManager::new();
    let mut v = SpeechVizState::new();
    m.start_recording(RecordingMode::Hold, Ok((16000, 1)), &mut v).unwrap();
    assert_eq!(m.stop_recording(None, &mut v), StopPlan::TooShort);
    m.start_recording(RecordingMode::Hold, Ok((16000, 1)), &mut v).unwrap();
    assert_eq!(m.stop_recording(Some(900_000_000), &mut v), StopPlan::Process);
}

#[test]
fn speech_viz_flags() {
    let mut v = SpeechVizState::new();
    assert_eq!(v.level_bits(), 0.0f32.to_bits());
    assert!(!v.is_active());
    v.set_active(true);
    v.store_level_bits(0.5f32.to_bits());
    assert!(v.is_active());
    v.deactivate();
    assert!(!v.is_active());
    assert_eq!(f32::from_bits(v.level_bits()), 0.5);
    v.set_active(true);
    v.reset();
    assert!(!v.is_active());
    assert_eq!(f32::from_bits(v.level_bits()), 0.0);
}

#[test]
fn state_names() {
    assert_eq!(state_name(OverlayState::Hidden), "hidden");
    assert_eq!(state_name(OverlayState::Recording), "recording");
    assert_eq!(state_name(OverlayState::RecordingLatch), "recording_latch");
    assert_eq!(state_name(OverlayState::Transcribing), "transcribing");
}
