//! The global hotkey: the helper's chord detector, the event lines it
//! writes, and how the application reads them.
use vstd::prelude::*;
use crate::session::ControlMsg;

verus! {

/// The keys the helper watches.
#[derive(Debug, Clone, Copy, PartialEq, Eq, Structural)]
pub enum HelperKey {
    ControlLeft,
    Alt,
    MetaLeft,
    KeyJ,
    Other,
}

/// A key going down or up.
#[derive(Debug, Clone, Copy, PartialEq, Eq, Structural)]
pub enum KeyEvent {
    Press(HelperKey),
    Release(HelperKey),
}

/// The events the helper reports.
#[derive(Debug, Clone, Copy, PartialEq, Eq, Structural)]
pub enum HelperEvent {
    HotkeyPress,
    HotkeyRelease,
}

/// Which chord keys are down, and whether the chord has been reported down.
#[derive(Debug, Clone, Copy, PartialEq, Eq, Structural)]
pub struct ChordState {
    pub control_down: bool,
    pub alt_down: bool,
    pub meta_down: bool,
    pub j_down: bool,
    pub active: bool,
}

/// All four chord keys are down.
pub open spec fn chord_down(s: ChordState) -> bool {
    s.control_down && s.alt_down && s.meta_down && s.j_down
}

/// The key flags after one key event.
pub open spec fn keys_after(s: ChordState, e: KeyEvent) -> ChordState {
    match e {
        KeyEvent::Press(HelperKey::ControlLeft) => ChordState { control_down: true, ..s },
        KeyEvent::Release(HelperKey::ControlLeft) => ChordState { control_down: false, ..s },
        KeyEvent::Press(HelperKey::Alt) => ChordState { alt_down: true, ..s },
        KeyEvent::Release(HelperKey::Alt) => ChordState { alt_down: false, ..s },
        KeyEvent::Press(HelperKey::MetaLeft) => ChordState { meta_down: true, ..s },
        KeyEvent::Release(HelperKey::MetaLeft) => ChordState { meta_down: false, ..s },
        KeyEvent::Press(HelperKey::KeyJ) => ChordState { j_down: true, ..s },
        KeyEvent::Release(HelperKey::KeyJ) => ChordState { j_down: false, ..s },
        _ => s,
    }
}

/// The state after a key event and the events reported for it: a chord
/// press or release when the chord changes, nothing otherwise.
pub open spec fn chord_step(s: ChordState, e: KeyEvent) -> (ChordState, Seq<HelperEvent>) {
    let k = keys_after(s, e);
    if chord_down(k) && !s.active {
        (ChordState { active: true, ..k }, seq![HelperEvent::HotkeyPress])
    } else if !chord_down(k) && s.active {
        (ChordState { active: false, ..k }, seq![HelperEvent::HotkeyRelease])
    } else {
        (k, Seq::<HelperEvent>::empty())
    }
}

/// The state after a sequence of key events and everything reported.
pub open spec fn chord_run(s: ChordState, es: Seq<KeyEvent>) -> (ChordState, Seq<HelperEvent>)
    decreases es.len(),
{
    if es.len() == 0 {
        (s, Seq::<HelperEvent>::empty())
    } else {
        let (mid, out1) = chord_run(s, es.drop_last());
        let (last, out2) = chord_step(mid, es.last());
        (last, out1 + out2)
    }
}

/// Chord presses and releases take turns, starting from `active`: a press
/// only while not active, a release only while active.
pub open spec fn alternates(active: bool, out: Seq<HelperEvent>) -> bool
    decreases out.len(),
{
    if out.len() == 0 {
        true
    } else {
        match out[0] {
            HelperEvent::HotkeyPress => !active && alternates(true, out.drop_first()),
            HelperEvent::HotkeyRelease => active && alternates(false, out.drop_first()),
        }
    }
}

/// Whether the chord counts as down after the reported events.
pub open spec fn active_after(active: bool, out: Seq<HelperEvent>) -> bool
    decreases out.len(),
{
    if out.len() == 0 {
        active
    } else {
        match out[0] {
            HelperEvent::HotkeyPress => active_after(true, out.drop_first()),
            HelperEvent::HotkeyRelease => active_after(false, out.drop_first()),
        }
    }
}

proof fn lemma_alternates_append(a: bool, x: Seq<HelperEvent>, y: Seq<HelperEvent>)
    ensures
        alternates(a, x + y) == (alternates(a, x) && alternates(active_after(a, x), y)),
        active_after(a, x + y) == active_after(active_after(a, x), y),
    decreases x.len(),
{
    if x.len() > 0 {
        assert((x + y).drop_first() =~= x.drop_first() + y);
        assert((x + y)[0] == x[0]);
        match x[0] {
            HelperEvent::HotkeyPress => lemma_alternates_append(true, x.drop_first(), y),
            HelperEvent::HotkeyRelease => lemma_alternates_append(false, x.drop_first(), y),
        }
    } else {
        assert(x + y =~= y);
    }
}

proof fn lemma_step_alternates(s: ChordState, e: KeyEvent)
    requires
        s.active == chord_down(s),
    ensures
        alternates(s.active, chord_step(s, e).1),
        active_after(s.active, chord_step(s, e).1) == chord_step(s, e).0.active,
        chord_step(s, e).0.active == chord_down(chord_step(s, e).0),
{
    reveal_with_fuel(alternates, 2);
    reveal_with_fuel(active_after, 2);
    let out = chord_step(s, e).1;
    if out.len() == 1 {
        assert(out.drop_first().len() == 0);
    }
}

/// However the keys go, the helper reports chord presses and releases
/// alternately, a press first when the chord starts up, and after the events
/// the chord counts as down exactly when all four keys are down.
pub proof fn law_chord_events_alternate(s: ChordState, es: Seq<KeyEvent>)
    requires
        s.active == chord_down(s),
    ensures
        alternates(s.active, chord_run(s, es).1),
        active_after(s.active, chord_run(s, es).1) == chord_run(s, es).0.active,
        chord_run(s, es).0.active == chord_down(chord_run(s, es).0),
    decreases es.len(),
{
    if es.len() > 0 {
        law_chord_events_alternate(s, es.drop_last());
        let (mid, out1) = chord_run(s, es.drop_last());
        lemma_step_alternates(mid, es.last());
        let (_, out2) = chord_step(mid, es.last());
        lemma_alternates_append(s.active, out1, out2);
    }
}

/// The helper reports a chord press only when Left Control, Alt, Left
/// Windows and J are all down, and a chord release only when one of them is
/// up; the chord counts as down only while all four are down. A key event
/// changes only the flag of its own key, and at most one event is reported,
/// exactly when the chord's state changes.
pub proof fn law_chord_needs_all_four_keys(s: ChordState, e: KeyEvent)
    ensures
        ({
            let t = chord_step(s, e).0;
            let out = chord_step(s, e).1;
            let all_down = t.control_down && t.alt_down && t.meta_down && t.j_down;
            &&& t.active ==> all_down
            &&& s.active == (s.control_down && s.alt_down && s.meta_down && s.j_down) ==> t.active
                == all_down
            &&& out.contains(HelperEvent::HotkeyPress) ==> all_down && !s.active
            &&& out.contains(HelperEvent::HotkeyRelease) ==> !all_down && s.active
            &&& out.len() <= 1
            &&& (out.len() == 1) == (t.active != s.active)
            &&& t.control_down == match e {
                KeyEvent::Press(HelperKey::ControlLeft) => true,
                KeyEvent::Release(HelperKey::ControlLeft) => false,
                _ => s.control_down,
            }
            &&& t.alt_down == match e {
                KeyEvent::Press(HelperKey::Alt) => true,
                KeyEvent::Release(HelperKey::Alt) => false,
                _ => s.alt_down,
            }
            &&& t.meta_down == match e {
                KeyEvent::Press(HelperKey::MetaLeft) => true,
                KeyEvent::Release(HelperKey::MetaLeft) => false,
                _ => s.meta_down,
            }
            &&& t.j_down == match e {
                KeyEvent::Press(HelperKey::KeyJ) => true,
                KeyEvent::Release(HelperKey::KeyJ) => false,
                _ => s.j_down,
            }
        }),
{
    let out = chord_step(s, e).1;
    if out.len() == 1 {
        assert(out.contains(out[0]));
    }
}

/// The helper's chord detector.
pub struct HotkeyChord {
    state: ChordState,
}

impl HotkeyChord {
    /// The detector's state.
    pub closed spec fn view_state(&self) -> ChordState {
        self.state
    }

    /// No key down, chord not reported.
    pub fn new() -> (r: Self)
        ensures
            r.view_state() == (ChordState {
                control_down: false,
                alt_down: false,
                meta_down: false,
                j_down: false,
                active: false,
            }),
    {
        HotkeyChord {
            state: ChordState {
                control_down: false,
                alt_down: false,
                meta_down: false,
                j_down: false,
                active: false,
            },
        }
    }

    /// Takes one key event and returns the events to report, in order.
    pub fn on_key(&mut self, e: KeyEvent) -> (out: Vec<HelperEvent>)
        ensures
            (final(self).view_state(), out@) == chord_step(old(self).view_state(), e),
    {
        let s = self.state;
        let mut k = s;
        match e {
            KeyEvent::Press(HelperKey::ControlLeft) => k.control_down = true,
            KeyEvent::Release(HelperKey::ControlLeft) => k.control_down = false,
            KeyEvent::Press(HelperKey::Alt) => k.alt_down = true,
            KeyEvent::Release(HelperKey::Alt) => k.alt_down = false,
            KeyEvent::Press(HelperKey::MetaLeft) => k.meta_down = true,
            KeyEvent::Release(HelperKey::MetaLeft) => k.meta_down = false,
            KeyEvent::Press(HelperKey::KeyJ) => k.j_down = true,
            KeyEvent::Release(HelperKey::KeyJ) => k.j_down = false,
            _ => {},
        }
        let mut out: Vec<HelperEvent> = Vec::new();
        let chord = k.control_down && k.alt_down && k.meta_down && k.j_down;
        if chord && !s.active {
            k.active = true;
            out.push(HelperEvent::HotkeyPress);
        } else if !chord && s.active {
            k.active = false;
            out.push(HelperEvent::HotkeyRelease);
        }
        self.state = k;
        proof {
            assert(k == chord_step(s, e).0);
            assert(out@ =~= chord_step(s, e).1);
        }
        out
    }
}

/// The name of a helper event on the wire.
pub open spec fn helper_event_name_spec(e: HelperEvent) -> Seq<char> {
    match e {
        HelperEvent::HotkeyPress => "hotkey_press"@,
        HelperEvent::HotkeyRelease => "hotkey_release"@,
    }
}

/// The name of a helper event on the wire.
pub fn helper_event_name(e: HelperEvent) -> (r: &'static str)
    ensures
        r@ == helper_event_name_spec(e),
{
    match e {
        HelperEvent::HotkeyPress => "hotkey_press",
        HelperEvent::HotkeyRelease => "hotkey_release",
    }
}

/// The JSON line the helper writes for an event: `{"event":"<name>"}`.
pub fn helper_event_line(e: HelperEvent) -> (r: String)
    ensures
        r@ == "{\"event\":\""@ + helper_event_name_spec(e) + "\"}"@,
{
    let mut line = "{\"event\":\"".to_owned();
    line.append(helper_event_name(e));
    line.append("\"}");
    line
}

/// Whether two strings are equal, character by character.
pub fn same_text(a: &str, b: &str) -> (r: bool)
    ensures
        r == (a@ == b@),
{
    let n = a.unicode_len();
    if n != b.unicode_len() {
        return false;
    }
    let mut i: usize = 0;
    while i < n
        invariant
            n == a@.len(),
            n == b@.len(),
            i <= n,
            forall|j: int| 0 <= j < i ==> a@[j] == b@[j],
        decreases n - i,
    {
        if a.get_char(i) != b.get_char(i) {
            return false;
        }
        i = i + 1;
    }
    proof {
        assert(a@ =~= b@);
    }
    true
}

/// The control message for an event name from the helper, if it is one the
/// application knows: the global hotkey going down starts a recording and
/// going up ends a held one.
pub open spec fn control_for_event_name(name: Seq<char>) -> Option<ControlMsg> {
    if name == "hotkey_press"@ {
        Some(ControlMsg::SinglePress)
    } else if name == "hotkey_release"@ {
        Some(ControlMsg::StopHold)
    } else if name == "right_alt_press"@ {
        Some(ControlMsg::SinglePress)
    } else if name == "right_alt_release"@ {
        Some(ControlMsg::StopHold)
    } else if name == "space_press"@ {
        Some(ControlMsg::SwitchToLatch)
    } else {
        None
    }
}

/// The control message for an event name from the helper; `None` for an
/// unknown name, which is ignored.
pub fn control_for_helper_event(name: &str) -> (r: Option<ControlMsg>)
    ensures
        r == control_for_event_name(name@),
{
    if same_text(name, "hotkey_press") {
        Some(ControlMsg::SinglePress)
    } else if same_text(name, "hotkey_release") {
        Some(ControlMsg::StopHold)
    } else if same_text(name, "right_alt_press") {
        Some(ControlMsg::SinglePress)
    } else if same_text(name, "right_alt_release") {
        Some(ControlMsg::StopHold)
    } else if same_text(name, "space_press") {
        Some(ControlMsg::SwitchToLatch)
    } else {
        None
    }
}

/// Every event the helper reports is one the application acts on: a chord
/// press starts a recording, a chord release ends a held one.
pub proof fn law_helper_events_understood(e: HelperEvent)
    ensures
        control_for_event_name(helper_event_name_spec(e)) == Some(
            match e {
                HelperEvent::HotkeyPress => ControlMsg::SinglePress,
                HelperEvent::HotkeyRelease => ControlMsg::StopHold,
            },
        ),
{
    reveal_strlit("hotkey_press");
    reveal_strlit("hotkey_release");
    reveal_strlit("right_alt_press");
    reveal_strlit("right_alt_release");
    reveal_strlit("space_press");
    if e == HelperEvent::HotkeyRelease {
        assert("hotkey_release"@[7] != "hotkey_press"@[7]);
        assert("hotkey_release"@ != "hotkey_press"@);
    }
}

/// How the helper process ended.
#[derive(Debug, Clone, Copy, PartialEq, Eq, Structural)]
pub enum HelperExit {
    /// Exit status 0.
    Finished,
    /// Status 126: the user cancelled the authorization.
    Cancelled,
    /// Status 127: authorization failed or the helper is missing.
    NotAuthorized,
    /// Any other status.
    Failed(i32),
    /// Ended by a signal.
    Signaled,
}

/// Classifies the helper's exit status (`None` when a signal ended it).
pub fn classify_helper_exit(code: Option<i32>) -> (r: HelperExit)
    ensures
        r == match code {
            Some(0) => HelperExit::Finished,
            Some(126) => HelperExit::Cancelled,
            Some(127) => HelperExit::NotAuthorized,
            Some(c) => HelperExit::Failed(c),
            None => HelperExit::Signaled,
        },
{
    match code {
        Some(0) => HelperExit::Finished,
        Some(126) => HelperExit::Cancelled,
        Some(127) => HelperExit::NotAuthorized,
        Some(c) => HelperExit::Failed(c),
        None => HelperExit::Signaled,
    }
}

} // verus!
