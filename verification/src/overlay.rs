//! When and where the recording overlay is shown, for the window overlay,
//! the GNOME Shell overlay and the layer-shell overlay.
use vstd::prelude::*;
use crate::state::{shows, OverlayState};

verus! {

/// What a window overlay does on a state change.
#[derive(Debug, Clone, Copy, PartialEq, Eq, Structural)]
pub enum OverlayUpdate {
    /// Same state: nothing.
    Unchanged,
    /// Hide the window and forget when it was shown.
    Hide,
    /// Place the window at the bottom centre and show it; when it was hidden
    /// before, note the time and ask for a redraw.
    Show { newly_visible: bool },
}

/// The update for a change from `state` to `next`.
pub open spec fn overlay_update(state: OverlayState, next: OverlayState) -> OverlayUpdate {
    if next == state {
        OverlayUpdate::Unchanged
    } else if !shows(next) {
        OverlayUpdate::Hide
    } else {
        OverlayUpdate::Show { newly_visible: !shows(state) }
    }
}

/// The state of the window overlay.
pub struct OverlayModel {
    state: OverlayState,
}

impl OverlayModel {
    /// The current state.
    pub closed spec fn state_spec(&self) -> OverlayState {
        self.state
    }

    /// Hidden.
    pub fn new() -> (r: Self)
        ensures
            r.state_spec() == OverlayState::Hidden,
    {
        OverlayModel { state: OverlayState::Hidden }
    }

    /// Whether the overlay is shown.
    pub fn is_visible(&self) -> (r: bool)
        ensures
            r == shows(self.state_spec()),
    {
        self.state != OverlayState::Hidden
    }

    /// Takes the next state and says what the window does.
    pub fn update_state(&mut self, next: OverlayState) -> (r: OverlayUpdate)
        ensures
            final(self).state_spec() == next,
            r == overlay_update(old(self).state_spec(), next),
    {
        if next == self.state {
            return OverlayUpdate::Unchanged;
        }
        let was_visible = self.is_visible();
        self.state = next;
        if !self.is_visible() {
            return OverlayUpdate::Hide;
        }
        OverlayUpdate::Show { newly_visible: !was_visible }
    }
}

/// The same state a second time changes nothing, and a window that is shown
/// again after a change between shown states is not newly visible.
pub proof fn law_overlay_update_idempotent(a: OverlayState, b: OverlayState)
    ensures
        overlay_update(b, b) == OverlayUpdate::Unchanged,
        shows(a) && shows(b) && a != b ==> overlay_update(a, b) == (OverlayUpdate::Show {
            newly_visible: false,
        }),
        !shows(a) && shows(b) ==> overlay_update(a, b) == (OverlayUpdate::Show {
            newly_visible: true,
        }),
{
}

/// A change to the hidden state hides the window, whatever was shown before;
/// the window is shown exactly on a change to a shown state, newly when it
/// was hidden; the same state again changes nothing.
pub proof fn law_overlay_window_follows_state(a: OverlayState, b: OverlayState)
    ensures
        a != OverlayState::Hidden && b == OverlayState::Hidden ==> overlay_update(a, b)
            == OverlayUpdate::Hide,
        (overlay_update(a, b) == OverlayUpdate::Hide) == (a != b && b == OverlayState::Hidden),
        (overlay_update(a, b) == OverlayUpdate::Unchanged) == (a == b),
        overlay_update(a, b) matches OverlayUpdate::Show { newly_visible } ==> a != b && b
            != OverlayState::Hidden && newly_visible == (a == OverlayState::Hidden),
        a != b && b != OverlayState::Hidden ==> overlay_update(a, b) is Show,
{
}

/// Integer division rounding toward zero, as Rust's `/` on `i32` does.
pub open spec fn div_toward_zero(x: int, d: int) -> int
    recommends
        d > 0,
{
    if x >= 0 {
        x / d
    } else {
        -((-x) / d)
    }
}

/// The top-left corner that puts a window of `win_w` x `win_h` at the bottom
/// centre of a monitor at (`mon_x`, `mon_y`) of `mon_w` x `mon_h`.
pub open spec fn bottom_center_spec(
    mon_x: int,
    mon_y: int,
    mon_w: int,
    mon_h: int,
    win_w: int,
    win_h: int,
) -> (int, int) {
    (mon_x + div_toward_zero(mon_w - win_w, 2), mon_y + (mon_h - win_h))
}

/// The window's bottom edge lies on the monitor's bottom edge; the gaps to
/// the monitor's left and right edges differ by at most one, the right one
/// being the larger when the window is narrower than the monitor and the
/// smaller otherwise (halving rounds toward zero); and moving the monitor
/// moves the window by the same amount, for monitors on any side of the
/// origin.
pub proof fn law_bottom_center_placement(
    mon_x: int,
    mon_y: int,
    mon_w: int,
    mon_h: int,
    win_w: int,
    win_h: int,
    dx: int,
    dy: int,
)
    ensures
        ({
            let (x, y) = bottom_center_spec(mon_x, mon_y, mon_w, mon_h, win_w, win_h);
            let left = x - mon_x;
            let right = (mon_x + mon_w) - (x + win_w);
            &&& y + win_h == mon_y + mon_h
            &&& mon_w >= win_w ==> 0 <= right - left <= 1
            &&& mon_w < win_w ==> -1 <= right - left <= 0
            &&& bottom_center_spec(mon_x + dx, mon_y + dy, mon_w, mon_h, win_w, win_h) == (
                x + dx,
                y + dy,
            )
        }),
{
}

/// Where the overlay window goes: centred horizontally, its bottom edge on
/// the monitor's bottom edge.
pub fn bottom_center_position(
    mon_x: i32,
    mon_y: i32,
    mon_w: u32,
    mon_h: u32,
    win_w: u32,
    win_h: u32,
) -> (r: (i32, i32))
    requires
        mon_w <= i32::MAX,
        mon_h <= i32::MAX,
        win_w <= i32::MAX,
        win_h <= i32::MAX,
        i32::MIN <= mon_x + div_toward_zero(mon_w - win_w, 2) <= i32::MAX,
        i32::MIN <= mon_y + (mon_h - win_h) <= i32::MAX,
    ensures
        (r.0 as int, r.1 as int) == bottom_center_spec(
            mon_x as int,
            mon_y as int,
            mon_w as int,
            mon_h as int,
            win_w as int,
            win_h as int,
        ),
{
    let dw: i32 = (mon_w as i32) - (win_w as i32);
    let half: i32 = if dw >= 0 {
        dw / 2
    } else {
        -((-dw) / 2)
    };
    let x: i32 = mon_x + half;
    let y: i32 = mon_y + ((mon_h as i32) - (win_h as i32));
    (x, y)
}

/// The GNOME Shell overlay is not sent updates more often than this many
/// nanoseconds (33 ms) unless forced.
pub const MIN_SEND_INTERVAL_NANOS: u64 = 33_000_000;

/// Whether an overlay update goes to the shell: always when forced;
/// otherwise not within the minimum interval of the last one, and not when
/// the level barely moved, unless the overlay shows transcription.
pub open spec fn should_send_spec(
    force: bool,
    since_last_nanos: Option<u64>,
    level_barely_moved: bool,
    state: OverlayState,
) -> bool {
    if force {
        true
    } else if since_last_nanos matches Some(d) && d < MIN_SEND_INTERVAL_NANOS {
        false
    } else if level_barely_moved && state != OverlayState::Transcribing {
        false
    } else {
        true
    }
}

/// A forced update always goes out; otherwise nothing goes out within 33 ms
/// (33,000,000 ns) of the last update, and after that an update goes out
/// unless the level barely moved while the overlay shows something other than
/// transcription.
pub proof fn law_send_throttle(
    force: bool,
    since_last_nanos: Option<u64>,
    level_barely_moved: bool,
    state: OverlayState,
)
    ensures
        force ==> should_send_spec(force, since_last_nanos, level_barely_moved, state),
        !force && (since_last_nanos matches Some(d) && d < 33_000_000u64) ==> !should_send_spec(
            force,
            since_last_nanos,
            level_barely_moved,
            state,
        ),
        !force && (since_last_nanos matches Some(d) ==> d >= 33_000_000u64) ==> should_send_spec(
            force,
            since_last_nanos,
            level_barely_moved,
            state,
        ) == !(level_barely_moved && state != OverlayState::Transcribing),
{
}

/// Decides whether an overlay update goes to the shell.
pub fn should_send(
    force: bool,
    since_last_nanos: Option<u64>,
    level_barely_moved: bool,
    state: OverlayState,
) -> (r: bool)
    ensures
        r == should_send_spec(force, since_last_nanos, level_barely_moved, state),
{
    if force {
        return true;
    }
    match since_last_nanos {
        Some(d) => {
            if d < MIN_SEND_INTERVAL_NANOS {
                return false;
            }
        },
        None => {},
    }
    if level_barely_moved && state != OverlayState::Transcribing {
        return false;
    }
    true
}

/// Whether the live level goes with the state sent to the shell (else the
/// level sent is 0).
pub fn shows_live_level(state: OverlayState, active: bool) -> (r: bool)
    ensures
        r == ((state == OverlayState::Recording || state == OverlayState::RecordingLatch)
            && active),
{
    (state == OverlayState::Recording || state == OverlayState::RecordingLatch) && active
}

/// The shell overlay's state change: the new state, and whether a forced
/// update is sent (always on a change; on the same state only while shown).
pub fn shell_overlay_update(state: OverlayState, next: OverlayState) -> (r: (OverlayState, bool))
    ensures
        r == (if next == state {
            (state, shows(state))
        } else {
            (next, true)
        }),
{
    if next == state {
        (state, state != OverlayState::Hidden)
    } else {
        (next, true)
    }
}

/// The width the layer overlay asks for.
pub const OVERLAY_WIDTH: u32 = 420;

/// The height the layer overlay asks for.
pub const OVERLAY_HEIGHT: u32 = 96;

/// What the layer overlay does on a state change.
#[derive(Debug, Clone, Copy, PartialEq, Eq, Structural)]
pub enum LayerUpdate {
    /// Same state: nothing.
    Unchanged,
    /// Drop the layer surface and flush.
    Hide,
    /// Create the layer surface when there is none (and wait for its
    /// configuration), then draw.
    Show { create_layer: bool },
}

/// The bookkeeping of the layer-shell overlay.
pub struct LayerOverlayModel {
    state: OverlayState,
    has_layer: bool,
    visible_since_set: bool,
    needs_redraw: bool,
    closed: bool,
    first_configure: bool,
    configured_width: u32,
    configured_height: u32,
}

impl LayerOverlayModel {
    /// The current state.
    pub closed spec fn state_spec(&self) -> OverlayState {
        self.state
    }

    /// Whether a layer surface exists.
    pub closed spec fn has_layer_spec(&self) -> bool {
        self.has_layer
    }

    /// Whether a redraw is due.
    pub closed spec fn needs_redraw_spec(&self) -> bool {
        self.needs_redraw
    }

    /// Whether the compositor closed the surface since the last dispatch.
    pub closed spec fn closed_spec(&self) -> bool {
        self.closed
    }

    /// The configured size.
    pub closed spec fn size_spec(&self) -> (u32, u32) {
        (self.configured_width, self.configured_height)
    }

    /// Whether the time it became visible is recorded.
    pub closed spec fn shown_since_spec(&self) -> bool {
        self.visible_since_set
    }

    /// Hidden, no surface, the default size.
    pub fn new() -> (r: Self)
        ensures
            r.state_spec() == OverlayState::Hidden,
            !r.has_layer_spec(),
            !r.needs_redraw_spec(),
            !r.closed_spec(),
            !r.shown_since_spec(),
            r.size_spec() == (OVERLAY_WIDTH, OVERLAY_HEIGHT),
    {
        LayerOverlayModel {
            state: OverlayState::Hidden,
            has_layer: false,
            visible_since_set: false,
            needs_redraw: false,
            closed: false,
            first_configure: false,
            configured_width: OVERLAY_WIDTH,
            configured_height: OVERLAY_HEIGHT,
        }
    }

    /// The current state.
    pub fn state(&self) -> (r: OverlayState)
        ensures
            r == self.state_spec(),
    {
        self.state
    }

    /// Shown: a visible state and a surface to show it on.
    pub fn is_visible(&self) -> (r: bool)
        ensures
            r == (shows(self.state_spec()) && self.has_layer_spec()),
    {
        self.state != OverlayState::Hidden && self.has_layer
    }

    /// Takes the next state and says what the overlay does.
    pub fn update_state(&mut self, next: OverlayState) -> (r: LayerUpdate)
        ensures
            final(self).state_spec() == next,
            next == old(self).state_spec() ==> r == LayerUpdate::Unchanged && *final(self)
                == *old(self),
            next != old(self).state_spec() && !shows(next) ==> r == LayerUpdate::Hide
                && !final(self).has_layer_spec() && !final(self).needs_redraw_spec()
                && !final(self).shown_since_spec(),
            next != old(self).state_spec() && shows(next) ==> r == (LayerUpdate::Show {
                create_layer: !old(self).has_layer_spec(),
            }) && final(self).has_layer_spec() && final(self).needs_redraw_spec()
                && final(self).shown_since_spec(),
            next != old(self).state_spec() && shows(next) && !old(self).has_layer_spec()
                ==> final(self).size_spec() == (OVERLAY_WIDTH, OVERLAY_HEIGHT),
            old(self).has_layer_spec() ==> final(self).size_spec() == old(self).size_spec(),
            final(self).closed_spec() == old(self).closed_spec(),
    {
        if next == self.state {
            return LayerUpdate::Unchanged;
        }
        self.state = next;
        if next == OverlayState::Hidden {
            self.visible_since_set = false;
            self.has_layer = false;
            self.needs_redraw = false;
            return LayerUpdate::Hide;
        }
        let create_layer = !self.has_layer;
        if create_layer {
            self.has_layer = true;
            self.first_configure = true;
            self.configured_width = OVERLAY_WIDTH;
            self.configured_height = OVERLAY_HEIGHT;
        }
        self.visible_since_set = true;
        self.needs_redraw = true;
        LayerUpdate::Show { create_layer }
    }

    /// The compositor closed the surface.
    pub fn on_closed(&mut self)
        ensures
            final(self).closed_spec(),
            final(self).state_spec() == old(self).state_spec(),
            final(self).has_layer_spec() == old(self).has_layer_spec(),
    {
        self.closed = true;
    }

    /// After dispatching events: a closed surface is dropped and the overlay
    /// counts as hidden.
    pub fn after_dispatch(&mut self)
        ensures
            !final(self).closed_spec(),
            old(self).closed_spec() ==> !final(self).has_layer_spec() && final(self).state_spec()
                == OverlayState::Hidden,
            !old(self).closed_spec() ==> *final(self) == *old(self),
    {
        if self.closed {
            self.has_layer = false;
            self.state = OverlayState::Hidden;
            self.closed = false;
        }
    }

    /// The compositor configured the surface: a zero dimension keeps the
    /// default, and a redraw is due.
    pub fn configure(&mut self, width: u32, height: u32)
        ensures
            final(self).size_spec() == (
                if width == 0 {
                    OVERLAY_WIDTH
                } else {
                    width
                },
                if height == 0 {
                    OVERLAY_HEIGHT
                } else {
                    height
                },
            ),
            final(self).needs_redraw_spec(),
            final(self).state_spec() == old(self).state_spec(),
            final(self).has_layer_spec() == old(self).has_layer_spec(),
            final(self).closed_spec() == old(self).closed_spec(),
    {
        self.configured_width = if width == 0 {
            OVERLAY_WIDTH
        } else {
            width
        };
        self.configured_height = if height == 0 {
            OVERLAY_HEIGHT
        } else {
            height
        };
        self.first_configure = false;
        self.needs_redraw = true;
    }

    /// The size to draw at: the configured size, at least 1 x 1.
    pub fn draw_size(&self) -> (r: (u32, u32))
        ensures
            r.0 == if self.size_spec().0 == 0 {
                1
            } else {
                self.size_spec().0
            },
            r.1 == if self.size_spec().1 == 0 {
                1
            } else {
                self.size_spec().1
            },
    {
        let w = if self.configured_width == 0 {
            1
        } else {
            self.configured_width
        };
        let h = if self.configured_height == 0 {
            1
        } else {
            self.configured_height
        };
        (w, h)
    }

    /// A frame was drawn: no redraw is due.
    pub fn mark_drawn(&mut self)
        ensures
            !final(self).needs_redraw_spec(),
            final(self).state_spec() == old(self).state_spec(),
            final(self).has_layer_spec() == old(self).has_layer_spec(),
            final(self).size_spec() == old(self).size_spec(),
            final(self).closed_spec() == old(self).closed_spec(),
    {
        self.needs_redraw = false;
    }
}

} // verus!
