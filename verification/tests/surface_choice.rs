use voxter::surface::{
    choose_alpha_mode, choose_format, choose_present_mode, AlphaMode, PresentMode, SurfaceFormat,
};

#[test]
fn format_prefers_srgb_bgra_else_first() {
    assert_eq!(
        choose_format(&vec![SurfaceFormat::Other(3), SurfaceFormat::Bgra8UnormSrgb]),
        SurfaceFormat::Bgra8UnormSrgb
    );
    assert_eq!(
        choose_format(&vec![SurfaceFormat::Other(7), SurfaceFormat::Other(2)]),
        SurfaceFormat::Other(7)
    );
}

#[test]
fn present_mode_prefers_mailbox_else_fifo() {
    assert_eq!(choose_present_mode(&vec![PresentMode::Fifo, PresentMode::Mailbox]), PresentMode::Mailbox);
    assert_eq!(choose_present_mode(&vec![PresentMode::Immediate]), PresentMode::Fifo);
    assert_eq!(choose_present_mode(&vec![]), PresentMode::Fifo);
}

#[test]
fn alpha_mode_needs_transparency() {
    assert_eq!(
        choose_alpha_mode(&vec![AlphaMode::PostMultiplied, AlphaMode::PreMultiplied]),
        Some(AlphaMode::PreMultiplied)
    );
    assert_eq!(
        choose_alpha_mode(&vec![AlphaMode::Opaque, AlphaMode::PostMultiplied]),
        Some(AlphaMode::PostMultiplied)
    );
    assert_eq!(choose_alpha_mode(&vec![AlphaMode::Opaque, AlphaMode::Auto]), None);
}
