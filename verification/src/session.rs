//! Recording sessions: the recorder's flag, hold and latch modes, and what
//! each hotkey message leads to.
use vstd::prelude::*;
use crate::state::OverlayState;
use crate::speech_viz::SpeechVizState;

verus! {

/// Hold: recording stops when the key is released. Latch: it stops at the
/// next press.
#[derive(Debug, Clone, Copy, PartialEq, Eq, Structural)]
pub enum RecordingMode {
    Hold,
    Latch,
}

/// Messages from the hotkey listener and the menu.
#[derive(Debug, Clone, Copy, PartialEq, Eq, Structural)]
pub enum ControlMsg {
    StopHold,
    SinglePress,
    SwitchToLatch,
    Quit,
}

/// What the application does for a control message.
#[derive(Debug, Clone, Copy, PartialEq, Eq, Structural)]
pub enum ControlAction {
    /// Nothing.
    Ignore,
    /// Stop the recording and process it.
    StopRecording,
    /// Start a recording in hold mode; show the recording overlay if it
    /// starts.
    StartHoldRecording,
    /// Show the overlay in this state.
    ShowOverlay(OverlayState),
    /// Stop the recording, hide the overlay, leave.
    StopAndQuit,
    /// Hide the overlay and leave.
    Quit,
}

/// What stopping a recording leads to.
#[derive(Debug, Clone, Copy, PartialEq, Eq, Structural)]
pub enum StopPlan {
    /// No recording was running: the speech level stops being live.
    NotRecording,
    /// The recording lasted less than the minimum: it is dropped and the
    /// overlay hidden.
    TooShort,
    /// The recording is finalized and checked for speech.
    Process,
}

/// Recordings shorter than this many nanoseconds (0.9 s) are dropped.
pub const MIN_RECORDING_NANOS: u64 = 900_000_000;

/// The plan for stopping, given whether a recording runs and how long it has
/// run (unknown counts as zero).
pub open spec fn stop_plan(recording: bool, elapsed_nanos: Option<u64>) -> StopPlan {
    if !recording {
        StopPlan::NotRecording
    } else {
        let d = match elapsed_nanos {
            Some(n) => n,
            None => 0,
        };
        if d < MIN_RECORDING_NANOS {
            StopPlan::TooShort
        } else {
            StopPlan::Process
        }
    }
}

/// Whether a switch to latch mode happens.
pub open spec fn switches_to_latch(recording: bool, mode: RecordingMode) -> bool {
    recording && mode == RecordingMode::Hold
}

/// The mode after a control message and the action it leads to.
pub open spec fn control_step(recording: bool, mode: RecordingMode, msg: ControlMsg) -> (
    RecordingMode,
    ControlAction,
) {
    match msg {
        ControlMsg::StopHold => if recording && mode == RecordingMode::Hold {
            (mode, ControlAction::StopRecording)
        } else {
            (mode, ControlAction::Ignore)
        },
        ControlMsg::SinglePress => if recording && mode == RecordingMode::Latch {
            (mode, ControlAction::StopRecording)
        } else if !recording {
            (mode, ControlAction::StartHoldRecording)
        } else {
            (mode, ControlAction::ShowOverlay(OverlayState::Recording))
        },
        ControlMsg::SwitchToLatch => if switches_to_latch(recording, mode) {
            (RecordingMode::Latch, ControlAction::ShowOverlay(OverlayState::RecordingLatch))
        } else {
            (mode, ControlAction::Ignore)
        },
        ControlMsg::Quit => if recording {
            (mode, ControlAction::StopAndQuit)
        } else {
            (mode, ControlAction::Quit)
        },
    }
}

/// Whether audio is being recorded, and the input format.
pub struct AudioRecorder {
    recording: bool,
    sample_rate: u32,
    channels: u16,
}

impl AudioRecorder {
    /// Whether a recording runs.
    pub closed spec fn recording_spec(&self) -> bool {
        self.recording
    }

    /// The input sample rate.
    pub closed spec fn rate_spec(&self) -> u32 {
        self.sample_rate
    }

    /// The input channel count.
    pub closed spec fn channels_spec(&self) -> u16 {
        self.channels
    }

    /// Not recording; 16 kHz mono until a device says otherwise.
    pub fn new() -> (r: Self)
        ensures
            !r.recording_spec(),
            r.rate_spec() == 16000,
            r.channels_spec() == 1,
    {
        AudioRecorder { recording: false, sample_rate: 16000, channels: 1 }
    }

    /// Marks a recording as running; refused when one already runs.
    pub fn prepare_recording(&mut self) -> (r: Result<(), String>)
        ensures
            old(self).recording_spec() ==> (r matches Err(m) && m@ == "Already recording"@),
            old(self).recording_spec() ==> *final(self) == *old(self),
            !old(self).recording_spec() ==> r is Ok && final(self).recording_spec(),
            final(self).rate_spec() == old(self).rate_spec(),
            final(self).channels_spec() == old(self).channels_spec(),
    {
        if self.recording {
            return Err("Already recording".to_owned());
        }
        self.recording = true;
        Ok(())
    }

    /// Ends the running recording: `Ok(true)` when one ran, `Ok(false)` when
    /// none did.
    pub fn finalize_recording(&mut self) -> (r: Result<bool, String>)
        ensures
            r == Ok::<bool, String>(old(self).recording_spec()),
            !final(self).recording_spec(),
            final(self).rate_spec() == old(self).rate_spec(),
            final(self).channels_spec() == old(self).channels_spec(),
    {
        if !self.recording {
            return Ok(false);
        }
        self.recording = false;
        Ok(true)
    }

    /// Takes the sample rate and channel count of the input device, or
    /// passes on the error of querying it.
    pub fn configure_from_device(&mut self, device: Result<(u32, u16), String>) -> (r: Result<
        (),
        String,
    >)
        ensures
            device matches Ok(cfg) ==> r is Ok && final(self).rate_spec() == cfg.0
                && final(self).channels_spec() == cfg.1,
            device matches Err(e) ==> r == Err::<(), String>(e) && *final(self) == *old(self),
            final(self).recording_spec() == old(self).recording_spec(),
    {
        match device {
            Ok((rate, channels)) => {
                self.sample_rate = rate;
                self.channels = channels;
                Ok(())
            },
            Err(e) => Err(e),
        }
    }

    /// Whether a recording runs.
    pub fn is_recording(&self) -> (r: bool)
        ensures
            r == self.recording_spec(),
    {
        self.recording
    }

    /// The input sample rate.
    pub fn sample_rate(&self) -> (r: u32)
        ensures
            r == self.rate_spec(),
    {
        self.sample_rate
    }

    /// The input channel count.
    pub fn channels(&self) -> (r: u16)
        ensures
            r == self.channels_spec(),
    {
        self.channels
    }
}

/// The recorder together with the current recording mode.
pub struct AudioManager {
    recorder: AudioRecorder,
    mode: RecordingMode,
}

impl AudioManager {
    /// Whether a recording runs.
    pub closed spec fn recording_spec(&self) -> bool {
        self.recorder.recording_spec()
    }

    /// The recording mode.
    pub closed spec fn mode_spec(&self) -> RecordingMode {
        self.mode
    }

    /// The input sample rate.
    pub closed spec fn rate_spec(&self) -> u32 {
        self.recorder.rate_spec()
    }

    /// The input channel count.
    pub closed spec fn channels_spec(&self) -> u16 {
        self.recorder.channels_spec()
    }

    /// Not recording, hold mode.
    pub fn new() -> (r: Self)
        ensures
            !r.recording_spec(),
            r.mode_spec() == RecordingMode::Hold,
            r.rate_spec() == 16000,
    {
        AudioManager { recorder: AudioRecorder::new(), mode: RecordingMode::Hold }
    }

    /// The recorder.
    pub fn recorder(&self) -> (r: &AudioRecorder)
        ensures
            r.recording_spec() == self.recording_spec(),
            r.rate_spec() == self.rate_spec(),
            r.channels_spec() == self.channels_spec(),
    {
        &self.recorder
    }

    /// Whether a recording runs.
    pub fn is_recording(&self) -> (r: bool)
        ensures
            r == self.recording_spec(),
    {
        self.recorder.is_recording()
    }

    /// The recording mode.
    pub fn mode(&self) -> (r: RecordingMode)
        ensures
            r == self.mode_spec(),
    {
        self.mode
    }

    /// Starts a recording in `mode` with the queried input `device`:
    /// `Ok(false)` when one already runs (nothing changes); otherwise the
    /// mode is taken, then the device's format, the recording is marked
    /// running and the live speech level `viz` is made live at 0.0
    /// (`Ok(true)`); a device error is passed on, with the mode already taken
    /// and the format and level as they were.
    pub fn start_recording(
        &mut self,
        mode: RecordingMode,
        device: Result<(u32, u16), String>,
        viz: &mut SpeechVizState,
    ) -> (r: Result<bool, String>)
        ensures
            old(self).recording_spec() ==> r == Ok::<bool, String>(false) && final(self).recording_spec() && final(self).mode_spec() == old(self).mode_spec()
                && final(self).rate_spec() == old(self).rate_spec()
                && final(self).channels_spec() == old(self).channels_spec(),
            !old(self).recording_spec() ==> final(self).mode_spec() == mode,
            !old(self).recording_spec() ==> (device matches Ok(cfg) ==> r == Ok::<bool, String>(
                true,
            ) && final(self).recording_spec() && final(self).rate_spec() == cfg.0
                && final(self).channels_spec() == cfg.1),
            !old(self).recording_spec() ==> (device matches Err(e) ==> r == Err::<bool, String>(e)
                && !final(self).recording_spec() && final(self).rate_spec() == old(self).rate_spec()
                && final(self).channels_spec() == old(self).channels_spec()),
            r == Ok::<bool, String>(true) ==> final(viz).active_spec() && final(viz).level_spec()
                == 0,
            r != Ok::<bool, String>(true) ==> *final(viz) == *old(viz),
    {
        if self.recorder.is_recording() {
            return Ok(false);
        }
        self.mode = mode;
        match self.recorder.configure_from_device(device) {
            Ok(()) => {},
            Err(e) => {
                return Err(e);
            },
        }
        match self.recorder.prepare_recording() {
            Ok(()) => {
                viz.set_active(true);
                viz.store_level_bits(0);
                Ok(true)
            },
            Err(e) => Err(e),
        }
    }

    /// Stops the running recording, if any, and says what follows from how
    /// long it ran. With no recording running, the live speech level `viz`
    /// stops being live (its level stays); otherwise `viz` is left alone.
    pub fn stop_recording(&mut self, elapsed_nanos: Option<u64>, viz: &mut SpeechVizState) -> (r:
        StopPlan)
        ensures
            r == stop_plan(old(self).recording_spec(), elapsed_nanos),
            !final(self).recording_spec(),
            final(self).mode_spec() == old(self).mode_spec(),
            final(self).rate_spec() == old(self).rate_spec(),
            final(self).channels_spec() == old(self).channels_spec(),
            !old(self).recording_spec() ==> !final(viz).active_spec() && final(viz).level_spec()
                == old(viz).level_spec(),
            old(self).recording_spec() ==> *final(viz) == *old(viz),
    {
        if !self.recorder.is_recording() {
            viz.deactivate();
            return StopPlan::NotRecording;
        }
        let d: u64 = match elapsed_nanos {
            Some(n) => n,
            None => 0,
        };
        let _ = self.recorder.finalize_recording();
        if d < MIN_RECORDING_NANOS {
            StopPlan::TooShort
        } else {
            StopPlan::Process
        }
    }

    /// Switches a running hold-mode recording to latch mode: `Ok(true)` when
    /// it switched, `Ok(false)` otherwise.
    pub fn switch_to_latch_mode(&mut self) -> (r: Result<bool, String>)
        ensures
            r == Ok::<bool, String>(switches_to_latch(old(self).recording_spec(), old(self).mode_spec())),
            final(self).mode_spec() == if switches_to_latch(
                old(self).recording_spec(),
                old(self).mode_spec(),
            ) {
                RecordingMode::Latch
            } else {
                old(self).mode_spec()
            },
            final(self).recording_spec() == old(self).recording_spec(),
            final(self).rate_spec() == old(self).rate_spec(),
            final(self).channels_spec() == old(self).channels_spec(),
    {
        if self.recorder.is_recording() && self.mode == RecordingMode::Hold {
            self.mode = RecordingMode::Latch;
            Ok(true)
        } else {
            Ok(false)
        }
    }

    /// What a control message leads to; a switch to latch mode happens here.
    pub fn handle_control(&mut self, msg: ControlMsg) -> (r: ControlAction)
        ensures
            (final(self).mode_spec(), r) == control_step(
                old(self).recording_spec(),
                old(self).mode_spec(),
                msg,
            ),
            final(self).recording_spec() == old(self).recording_spec(),
            final(self).rate_spec() == old(self).rate_spec(),
            final(self).channels_spec() == old(self).channels_spec(),
    {
        let recording = self.recorder.is_recording();
        match msg {
            ControlMsg::StopHold => {
                if recording && self.mode == RecordingMode::Hold {
                    ControlAction::StopRecording
                } else {
                    ControlAction::Ignore
                }
            },
            ControlMsg::SinglePress => {
                if recording && self.mode == RecordingMode::Latch {
                    ControlAction::StopRecording
                } else if !recording {
                    ControlAction::StartHoldRecording
                } else {
                    ControlAction::ShowOverlay(OverlayState::Recording)
                }
            },
            ControlMsg::SwitchToLatch => {
                match self.switch_to_latch_mode() {
                    Ok(true) => ControlAction::ShowOverlay(OverlayState::RecordingLatch),
                    _ => ControlAction::Ignore,
                }
            },
            ControlMsg::Quit => {
                if recording {
                    ControlAction::StopAndQuit
                } else {
                    ControlAction::Quit
                }
            },
        }
    }
}

/// A hold-mode session: from idle a press starts a hold recording, and once
/// it runs, the release stops it.
pub proof fn law_hold_cycle(mode: RecordingMode)
    ensures
        control_step(false, mode, ControlMsg::SinglePress).1 == ControlAction::StartHoldRecording,
        control_step(true, RecordingMode::Hold, ControlMsg::StopHold) == (
            RecordingMode::Hold,
            ControlAction::StopRecording,
        ),
{
}

/// A latch-mode session: Space during a hold recording switches to latch,
/// after which the release is ignored and the next press stops recording.
pub proof fn law_latch_cycle()
    ensures
        control_step(true, RecordingMode::Hold, ControlMsg::SwitchToLatch) == (
            RecordingMode::Latch,
            ControlAction::ShowOverlay(OverlayState::RecordingLatch),
        ),
        control_step(true, RecordingMode::Latch, ControlMsg::StopHold) == (
            RecordingMode::Latch,
            ControlAction::Ignore,
        ),
        control_step(true, RecordingMode::Latch, ControlMsg::SinglePress) == (
            RecordingMode::Latch,
            ControlAction::StopRecording,
        ),
{
}

/// The overlay is only asked to show a recording state while a recording
/// runs: a Space press that does not switch a running hold recording to latch
/// mode does nothing, and one that does shows the latch overlay.
pub proof fn law_overlay_only_while_recording(
    recording: bool,
    mode: RecordingMode,
    msg: ControlMsg,
)
    ensures
        control_step(recording, mode, msg).1 matches ControlAction::ShowOverlay(_) ==> recording,
        control_step(recording, mode, msg).1 matches ControlAction::ShowOverlay(st) ==> st
            != OverlayState::Hidden && st != OverlayState::Transcribing,
        msg == ControlMsg::SwitchToLatch && !(recording && mode == RecordingMode::Hold)
            ==> control_step(recording, mode, msg) == (mode, ControlAction::Ignore),
        msg == ControlMsg::SwitchToLatch && recording && mode == RecordingMode::Hold
            ==> control_step(recording, mode, msg) == (
            RecordingMode::Latch,
            ControlAction::ShowOverlay(OverlayState::RecordingLatch),
        ),
        !recording ==> control_step(recording, mode, msg).1 == match msg {
            ControlMsg::SinglePress => ControlAction::StartHoldRecording,
            ControlMsg::Quit => ControlAction::Quit,
            _ => ControlAction::Ignore,
        },
{
}

/// Only a control message that switches to latch mode changes the mode, and
/// only a running recording is stopped.
pub proof fn law_control_step_frame(recording: bool, mode: RecordingMode, msg: ControlMsg)
    ensures
        control_step(recording, mode, msg).0 != mode ==> msg == ControlMsg::SwitchToLatch
            && switches_to_latch(recording, mode),
        control_step(recording, mode, msg).1 == ControlAction::StopRecording
            || control_step(recording, mode, msg).1 == ControlAction::StopAndQuit ==> recording,
        control_step(recording, mode, msg).1 == ControlAction::StartHoldRecording ==> !recording,
{
}

/// Stopping with no recording running only ends the live level; a recording
/// with unknown length is dropped; a recording that is long enough to be
/// processed stays so for any longer length.
pub proof fn law_stop_threshold(d: u64, e: u64)
    requires
        d <= e,
    ensures
        stop_plan(false, Some(d)) == StopPlan::NotRecording,
        stop_plan(true, None) == StopPlan::TooShort,
        stop_plan(true, Some(d)) == StopPlan::Process ==> stop_plan(true, Some(e))
            == StopPlan::Process,
        stop_plan(true, Some(MIN_RECORDING_NANOS)) == StopPlan::Process,
{
}


/// A recording shorter than 0.9 s (900,000,000 ns) is dropped and any other
/// is processed; with no recording running, stopping only ends the live
/// level, however long is reported.
pub proof fn law_stop_plan_by_length(elapsed: Option<u64>)
    ensures
        stop_plan(false, elapsed) == StopPlan::NotRecording,
        elapsed matches Some(d) ==> stop_plan(true, elapsed) == if d < 900_000_000u64 {
            StopPlan::TooShort
        } else {
            StopPlan::Process
        },
        elapsed is None ==> stop_plan(true, elapsed) == StopPlan::TooShort,
{
}

} // verus!
