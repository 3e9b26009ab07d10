//! What the recording overlay shows.
use vstd::prelude::*;

verus! {

/// The overlay's state.
#[derive(Debug, Clone, Copy, PartialEq, Eq, Structural)]
pub enum OverlayState {
    Hidden,
    Recording,
    RecordingLatch,
    Transcribing,
}

/// The name under which the shell extension knows a state.
pub open spec fn state_name_spec(state: OverlayState) -> Seq<char> {
    match state {
        OverlayState::Hidden => "hidden"@,
        OverlayState::Recording => "recording"@,
        OverlayState::RecordingLatch => "recording_latch"@,
        OverlayState::Transcribing => "transcribing"@,
    }
}

/// The name under which the shell extension knows `state`.
pub fn state_name(state: OverlayState) -> (r: &'static str)
    ensures
        r@ == state_name_spec(state),
{
    match state {
        OverlayState::Hidden => "hidden",
        OverlayState::Recording => "recording",
        OverlayState::RecordingLatch => "recording_latch",
        OverlayState::Transcribing => "transcribing",
    }
}

/// Whether the overlay is shown in `state`.
pub open spec fn shows(state: OverlayState) -> bool {
    state != OverlayState::Hidden
}

/// Different states have different names.
pub proof fn law_state_names_distinct(a: OverlayState, b: OverlayState)
    requires
        a != b,
    ensures
        state_name_spec(a) != state_name_spec(b),
{
    reveal_strlit("hidden");
    reveal_strlit("recording");
    reveal_strlit("recording_latch");
    reveal_strlit("transcribing");
    let x = state_name_spec(a);
    let y = state_name_spec(b);
    if x == y {
        assert(x.len() == y.len());
        match (a, b) {
            (OverlayState::Hidden, OverlayState::Recording) => assert(x[0] != y[0]),
            (OverlayState::Recording, OverlayState::Hidden) => assert(x[0] != y[0]),
            (OverlayState::Hidden, _) => {},
            (_, OverlayState::Hidden) => {},
            (OverlayState::Recording, OverlayState::Transcribing) => assert(x[0] != y[0]),
            (OverlayState::Transcribing, OverlayState::Recording) => assert(x[0] != y[0]),
            _ => {},
        }
    }
}

} // verus!
