use voxter::hotkey::{
    classify_helper_exit, control_for_helper_event, helper_event_line, HelperEvent, HelperExit,
    HelperKey, HotkeyChord, KeyEvent,
};
use voxter::overlay::{
    bottom_center_position, should_send, shell_overlay_update, shows_live_level, LayerOverlayModel,
    LayerUpdate, OverlayModel, OverlayUpdate,
};
use voxter::session::ControlMsg;
use voxter::state::OverlayState;

fn press(k: HelperKey) -> KeyEvent {
    KeyEvent::Press(k)
}
fn release(k: HelperKey) -> KeyEvent {
    KeyEvent::Release(k)
}

#[test]
fn chord_press_and_release() {
    let mut c = HotkeyChord::new();
    assert!(c.on_key(press(HelperKey::ControlLeft)).is_empty());
    assert!(c.on_key(press(HelperKey::Alt)).is_empty());
    assert!(c.on_key(press(HelperKey::MetaLeft)).is_empty());
    assert_eq!(c.on_key(press(HelperKey::KeyJ)), vec![HelperEvent::HotkeyPress]);
    assert!(c.on_key(press(HelperKey::KeyJ)).is_empty());
    assert!(c.on_key(press(HelperKey::Other)).is_empty());
    assert_eq!(c.on_key(release(HelperKey::Alt)), vec![HelperEvent::HotkeyRelease]);
    assert!(c.on_key(release(HelperKey::KeyJ)).is_empty());
    assert!(c.on_key(press(HelperKey::Other)).is_empty());
}

#[test]
fn other_keys_do_not_complete_the_chord() {
    let mut c = HotkeyChord::new();
    for k in [HelperKey::ControlLeft, HelperKey::Alt, HelperKey::MetaLeft] {
        assert!(c.on_key(press(k)).is_empty());
    }
    assert!(c.on_key(press(HelperKey::Other)).is_empty());
    assert!(c.on_key(release(HelperKey::Other)).is_empty());
    assert_eq!(c.on_key(press(HelperKey::KeyJ)), vec![HelperEvent::HotkeyPress]);
}

#[test]
fn chord_events_alternate_over_a_key_storm() {
    let keys = [
        HelperKey::ControlLeft,
        HelperKey::Alt,
        HelperKey::MetaLeft,
        HelperKey::KeyJ,
        HelperKey::Other,
    ];
    let mut c = HotkeyChord::new();
    let mut down = false;
    let mut first = true;
    let mut x: u32 = 12345;
    for _ in 0..2000 {
        x = x.wrapping_mul(1103515245).wrapping_add(12345);
        let k = keys[((x >> 16) % 5) as usize];
        let e = if (x >> 8) & 1 == 0 { press(k) } else { release(k) };
        for ev in c.on_key(e) {
            match ev {
                HelperEvent::HotkeyPress => {
                    assert!(!down);
                    down = true;
                }
                HelperEvent::HotkeyRelease => {
                    assert!(down);
                    assert!(!first);
                    down = false;
                }
            }
            first = false;
        }
    }
}

#[test]
fn helper_lines() {
    assert_eq!(helper_event_line(HelperEvent::HotkeyPress), "{\"event\":\"hotkey_press\"}");
    assert_eq!(helper_event_line(HelperEvent::HotkeyRelease), "{\"event\":\"hotkey_release\"}");
}

#[test]
fn helper_event_names_to_controls() {
    assert_eq!(control_for_helper_event("hotkey_press"), Some(ControlMsg::SinglePress));
    assert_eq!(control_for_helper_event("hotkey_release"), Some(ControlMsg::StopHold));
    assert_eq!(control_for_helper_event("right_alt_press"), Some(ControlMsg::SinglePress));
    assert_eq!(control_for_helper_event("right_alt_release"), Some(ControlMsg::StopHold));
    assert_eq!(control_for_helper_event("space_press"), Some(ControlMsg::SwitchToLatch));
    assert_eq!(control_for_helper_event(""), None);
    assert_eq!(control_for_helper_event("hotkey_press "), None);
}

#[test]
fn every_helper_line_is_understood() {
    for ev in [HelperEvent::HotkeyPress, HelperEvent::HotkeyRelease] {
        let line = helper_event_line(ev);
        let name = line.trim_start_matches("{\"event\":\"").trim_end_matches("\"}");
        let expected = match ev {
            HelperEvent::HotkeyPress => ControlMsg::SinglePress,
            HelperEvent::HotkeyRelease => ControlMsg::StopHold,
        };
        assert_eq!(control_for_helper_event(name), Some(expected));
    }
}

#[test]
fn helper_exit_statuses() {
    assert_eq!(classify_helper_exit(Some(0)), HelperExit::Finished);
    assert_eq!(classify_helper_exit(Some(126)), HelperExit::Cancelled);
    assert_eq!(classify_helper_exit(Some(127)), HelperExit::NotAuthorized);
    assert_eq!(classify_helper_exit(Some(3)), HelperExit::Failed(3));
    assert_eq!(classify_helper_exit(None), HelperExit::Signaled);
}

#[test]
fn window_overlay_updates() {
    let mut o = OverlayModel::new();
    assert!(!o.is_visible());
    assert_eq!(o.update_state(OverlayState::Hidden), OverlayUpdate::Unchanged);
    assert_eq!(o.update_state(OverlayState::Recording), OverlayUpdate::Show { newly_visible: true });
    assert!(o.is_visible());
    assert_eq!(
        o.update_state(OverlayState::RecordingLatch),
        OverlayUpdate::Show { newly_visible: false }
    );
    assert_eq!(o.update_state(OverlayState::RecordingLatch), OverlayUpdate::Unchanged);
    assert_eq!(o.update_state(OverlayState::Hidden), OverlayUpdate::Hide);
    assert!(!o.is_visible());
}

#[test]
fn bottom_center_positions() {
    assert_eq!(bottom_center_position(0, 0, 1920, 1080, 420, 96), (750, 984));
    assert_eq!(bottom_center_position(1920, -200, 2560, 1440, 840, 192), (2780, 1048));
    assert_eq!(bottom_center_position(0, 0, 300, 50, 421, 96), (-60, -46));
}

#[test]
fn shell_send_throttling() {
    assert!(should_send(true, Some(1), true, OverlayState::Recording));
    assert!(!should_send(false, Some(32_999_999), false, OverlayState::Recording));
    assert!(should_send(false, Some(33_000_000), false, OverlayState::Recording));
    assert!(!should_send(false, None, true, OverlayState::Recording));
    assert!(should_send(false, None, true, OverlayState::Transcribing));
    assert!(should_send(false, None, false, OverlayState::Hidden));
}

#[test]
fn shell_state_updates_and_level() {
    assert_eq!(shell_overlay_update(OverlayState::Hidden, OverlayState::Hidden), (OverlayState::Hidden, false));
    assert_eq!(shell_overlay_update(OverlayState::Recording, OverlayState::Recording), (OverlayState::Recording, true));
    assert_eq!(shell_overlay_update(OverlayState::Recording, OverlayState::Hidden), (OverlayState::Hidden, true));
    assert!(shows_live_level(OverlayState::RecordingLatch, true));
    assert!(!shows_live_level(OverlayState::Recording, false));
    assert!(!shows_live_level(OverlayState::Transcribing, true));
}

#[test]
fn layer_overlay_lifecycle() {
    let mut l = LayerOverlayModel::new();
    assert!(!l.is_visible());
    assert_eq!(l.draw_size(), (420, 96));
    assert_eq!(l.update_state(OverlayState::Recording), LayerUpdate::Show { create_layer: true });
    assert!(l.is_visible());
    l.configure(0, 120);
    assert_eq!(l.draw_size(), (420, 120));
    assert_eq!(l.update_state(OverlayState::Transcribing), LayerUpdate::Show { create_layer: false });
    assert_eq!(l.draw_size(), (420, 120));
    l.mark_drawn();
    l.on_closed();
    l.after_dispatch();
    assert!(!l.is_visible());
    assert_eq!(l.update_state(OverlayState::Hidden), LayerUpdate::Unchanged);
    assert_eq!(l.update_state(OverlayState::Recording), LayerUpdate::Show { create_layer: true });
    assert_eq!(l.draw_size(), (420, 96));
    assert_eq!(l.update_state(OverlayState::Hidden), LayerUpdate::Hide);
    assert!(!l.is_visible());
}
