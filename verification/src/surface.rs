//! Choosing how the overlay's GPU surface is configured from what the
//! surface supports: texture format, present mode and alpha mode.
use vstd::prelude::*;

verus! {

/// A texture format the surface offers: the sRGB BGRA format the overlay
/// prefers, or another one, told apart by a number of the caller's.
#[derive(Debug, Clone, Copy, PartialEq, Eq, Structural)]
pub enum SurfaceFormat {
    Bgra8UnormSrgb,
    Other(u32),
}

/// How frames are presented.
#[derive(Debug, Clone, Copy, PartialEq, Eq, Structural)]
pub enum PresentMode {
    AutoVsync,
    AutoNoVsync,
    Fifo,
    FifoRelaxed,
    Immediate,
    Mailbox,
}

/// How the compositor treats the surface's alpha channel.
#[derive(Debug, Clone, Copy, PartialEq, Eq, Structural)]
pub enum AlphaMode {
    Auto,
    Opaque,
    PreMultiplied,
    PostMultiplied,
    Inherit,
}

/// The sRGB BGRA format where it is offered, else the first format offered.
pub open spec fn chosen_format(formats: Seq<SurfaceFormat>) -> SurfaceFormat {
    if formats.contains(SurfaceFormat::Bgra8UnormSrgb) {
        SurfaceFormat::Bgra8UnormSrgb
    } else {
        formats[0]
    }
}

/// Mailbox where it is offered, else Fifo.
pub open spec fn chosen_present_mode(modes: Seq<PresentMode>) -> PresentMode {
    if modes.contains(PresentMode::Mailbox) {
        PresentMode::Mailbox
    } else {
        PresentMode::Fifo
    }
}

/// A transparent alpha mode: premultiplied where offered, else
/// postmultiplied where offered, else none (the overlay cannot be shown).
pub open spec fn chosen_alpha_mode(modes: Seq<AlphaMode>) -> Option<AlphaMode> {
    if modes.contains(AlphaMode::PreMultiplied) {
        Some(AlphaMode::PreMultiplied)
    } else if modes.contains(AlphaMode::PostMultiplied) {
        Some(AlphaMode::PostMultiplied)
    } else {
        None
    }
}

/// The alpha mode chosen is always a transparent one the surface offers,
/// premultiplied whenever that is offered, and there is none exactly when
/// the surface offers neither transparent mode. The present mode is Mailbox
/// exactly when offered, else Fifo. The format is one the surface offers, and
/// the sRGB BGRA one exactly when that is offered.
pub proof fn law_surface_choices(
    formats: Seq<SurfaceFormat>,
    present_modes: Seq<PresentMode>,
    alpha_modes: Seq<AlphaMode>,
)
    ensures
        chosen_alpha_mode(alpha_modes) matches Some(a) ==> (a == AlphaMode::PreMultiplied || a
            == AlphaMode::PostMultiplied) && alpha_modes.contains(a),
        (chosen_alpha_mode(alpha_modes) is None) == (!alpha_modes.contains(
            AlphaMode::PreMultiplied,
        ) && !alpha_modes.contains(AlphaMode::PostMultiplied)),
        alpha_modes.contains(AlphaMode::PreMultiplied) ==> chosen_alpha_mode(alpha_modes) == Some(
            AlphaMode::PreMultiplied,
        ),
        chosen_present_mode(present_modes) == PresentMode::Mailbox || chosen_present_mode(
            present_modes,
        ) == PresentMode::Fifo,
        (chosen_present_mode(present_modes) == PresentMode::Mailbox) == present_modes.contains(
            PresentMode::Mailbox,
        ),
        formats.len() > 0 ==> formats.contains(chosen_format(formats)),
        formats.len() > 0 ==> (chosen_format(formats) == SurfaceFormat::Bgra8UnormSrgb)
            == formats.contains(SurfaceFormat::Bgra8UnormSrgb),
{
    if formats.len() > 0 {
        assert(formats.contains(formats[0]));
    }
}

/// The texture format for the overlay's surface; the surface offers at
/// least one.
pub fn choose_format(formats: &Vec<SurfaceFormat>) -> (r: SurfaceFormat)
    requires
        formats.len() > 0,
    ensures
        r == chosen_format(formats@),
{
    let mut i: usize = 0;
    while i < formats.len()
        invariant
            i <= formats.len(),
            forall|j: int| 0 <= j < i ==> formats@[j] != SurfaceFormat::Bgra8UnormSrgb,
        decreases formats.len() - i,
    {
        if formats[i] == SurfaceFormat::Bgra8UnormSrgb {
            proof {
                assert(formats@.contains(formats@[i as int]));
            }
            return SurfaceFormat::Bgra8UnormSrgb;
        }
        i = i + 1;
    }
    formats[0]
}

/// The present mode for the overlay's surface.
pub fn choose_present_mode(modes: &Vec<PresentMode>) -> (r: PresentMode)
    ensures
        r == chosen_present_mode(modes@),
{
    let mut i: usize = 0;
    while i < modes.len()
        invariant
            i <= modes.len(),
            forall|j: int| 0 <= j < i ==> modes@[j] != PresentMode::Mailbox,
        decreases modes.len() - i,
    {
        if modes[i] == PresentMode::Mailbox {
            proof {
                assert(modes@.contains(modes@[i as int]));
            }
            return PresentMode::Mailbox;
        }
        i = i + 1;
    }
    PresentMode::Fifo
}

/// Whether `modes` offers `m`.
fn offers_alpha_mode(modes: &Vec<AlphaMode>, m: AlphaMode) -> (r: bool)
    ensures
        r == modes@.contains(m),
{
    let mut i: usize = 0;
    while i < modes.len()
        invariant
            i <= modes.len(),
            forall|j: int| 0 <= j < i ==> modes@[j] != m,
        decreases modes.len() - i,
    {
        if modes[i] == m {
            proof {
                assert(modes@.contains(modes@[i as int]));
            }
            return true;
        }
        i = i + 1;
    }
    false
}

/// The alpha mode for the overlay's transparent surface; `None` where the
/// surface offers no transparent mode.
pub fn choose_alpha_mode(modes: &Vec<AlphaMode>) -> (r: Option<AlphaMode>)
    ensures
        r == chosen_alpha_mode(modes@),
{
    if offers_alpha_mode(modes, AlphaMode::PreMultiplied) {
        Some(AlphaMode::PreMultiplied)
    } else if offers_alpha_mode(modes, AlphaMode::PostMultiplied) {
        Some(AlphaMode::PostMultiplied)
    } else {
        None
    }
}

} // verus!
