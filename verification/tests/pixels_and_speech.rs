use voxter::icon::{icon_from_argb, light_pixmap, mentions_gnome};
use voxter::shell_overlay::{check_overlay_available, overlay_failure_message, OverlayCheckFailure};
use voxter::speech_check::{every_third_sample, should_transcribe, SpeechScan};

#[test]
fn icon_keeps_only_alpha() {
    let px = vec![0xFF00_0000u32, 0x8012_3456, 0, 0x01FF_FFFF];
    let icon = icon_from_argb(2, &px);
    assert_eq!(icon.width, 2);
    assert_eq!(icon.height, 2);
    assert_eq!(icon.rgba, vec![0, 0, 0, 255, 0, 0, 0, 0x80, 0, 0, 0, 0, 0, 0, 0, 1]);
}

#[test]
fn light_pixmap_moves_alpha_first() {
    let icon = icon_from_argb(1, &vec![0x7F00_0000, 0x0100_0000]);
    assert_eq!(light_pixmap(&icon.rgba), vec![0x7F, 255, 255, 255, 1, 255, 255, 255]);
    assert_eq!(light_pixmap(&vec![1, 2, 3, 4, 5, 6]), vec![4, 255, 255, 255]);
    assert_eq!(light_pixmap(&vec![]), Vec::<u8>::new());
}

#[test]
fn gnome_session_detection() {
    assert!(mentions_gnome("GNOME"));
    assert!(mentions_gnome("ubuntu:GNOME"));
    assert!(mentions_gnome("gnome-xorg"));
    assert!(mentions_gnome("xGnOmEx"));
    assert!(!mentions_gnome("KDE"));
    assert!(!mentions_gnome("gnom"));
    assert!(!mentions_gnome(""));
    assert!(!mentions_gnome("g n o m e"));
}

#[test]
fn every_third_from_the_first() {
    assert_eq!(every_third_sample(&vec![1, 2, 3, 4, 5, 6, 7]), vec![1, 4, 7]);
    assert_eq!(every_third_sample(&vec![1, 2, 3]), vec![1]);
    assert_eq!(every_third_sample(&vec![]), Vec::<i16>::new());
}

#[test]
fn speech_scan_skips_header_and_frames_input() {
    let mut scan = SpeechScan::new();
    assert!(!scan.on_packet());
    assert_eq!(scan.vad_frames(), None);
    assert!(scan.on_packet());
    let pcm: Vec<i16> = (0..960).map(|i| i as i16).collect();
    scan.add_decoded(&pcm, 960);
    assert!(scan.on_packet());
    scan.add_decoded(&pcm, 900);
    let frames = scan.vad_frames().expect("samples");
    assert_eq!(frames.len(), 1);
    assert_eq!(frames[0].len(), 512);
    assert_eq!(frames[0][0], 0);
    assert_eq!(frames[0][1], 3);
    assert_eq!(frames[0][320], 0);
}

#[test]
fn transcription_decision() {
    assert!(should_transcribe(10, Some(true)));
    assert!(should_transcribe(10, None));
    assert!(!should_transcribe(10, Some(false)));
    assert!(!should_transcribe(0, Some(true)));
    assert!(!should_transcribe(0, None));
}

const REQUIRED: &str = "GNOME Shell overlay extension is required on GNOME Wayland but is not available. Install with scripts/install-gnome-shell-extension.sh, enable it, then log out/in.";

#[test]
fn overlay_failure_messages() {
    assert_eq!(
        overlay_failure_message(OverlayCheckFailure::Ping, "boom"),
        format!("{REQUIRED}\nPing failed: boom")
    );
    assert_eq!(
        overlay_failure_message(OverlayCheckFailure::Connect, "no bus"),
        format!("{REQUIRED}\nSession D-Bus connection error: no bus")
    );
    assert_eq!(
        overlay_failure_message(OverlayCheckFailure::Proxy, "bad"),
        format!("{REQUIRED}\nGNOME Shell overlay D-Bus proxy error: bad")
    );
}

#[test]
fn overlay_check_without_extension_fails_with_explanation() {
    match check_overlay_available() {
        Ok(()) => {}
        Err(m) => assert!(m.starts_with(&format!("{REQUIRED}\n")), "{m}"),
    }
}
