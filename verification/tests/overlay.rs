use noci::geometry::{collapsed_frame, expanded_frame, ScreenMetrics};
use noci::hover::{handle_pointer_event, OverlayState, PointerEvent};
use noci::params::NSTrackingAreaOptions;
use noci::window::{
    apply_native_setup, notch_window_style, refresh_tracking_areas, track_view_options,
    NativeSetup,
};

fn screen(width: u32, height: u32, scale_pct: u32) -> ScreenMetrics {
    ScreenMetrics { width, height, scale_pct }
}

#[test]
fn collapsed_scenario_full_hd_retina() {
    // 1440x900 logical at scale 2: 2880 px wide, width 0.17 * 2880 = 489.6 -> 490.
    let f = collapsed_frame(screen(2880, 900, 200));
    assert_eq!(f.width, 490);
    assert_eq!(f.height, 32);
    // x = (2880 - 490) / 2 = 1195 px, carried in half-pixels.
    assert_eq!(f.x_half, 2390);
    assert_eq!(f.y, 868);
}

#[test]
fn collapsed_width_rounds_to_nearest() {
    // 123 * 0.17 = 20.91 -> 21.
    assert_eq!(collapsed_frame(screen(123, 100, 100)).width, 21);
    // 50 * 0.17 = 8.5 -> 9 (halves round up).
    assert_eq!(collapsed_frame(screen(50, 100, 100)).width, 9);
    // 100 * 0.17 = 17 exactly.
    assert_eq!(collapsed_frame(screen(100, 100, 100)).width, 17);
}

#[test]
fn collapsed_centering_is_exact_on_odd_gap() {
    // 2881 * 0.17 = 489.77 -> 490; x = (2881 - 490) / 2 = 1195.5 px.
    let f = collapsed_frame(screen(2881, 900, 200));
    assert_eq!(f.width, 490);
    assert_eq!(f.x_half, 2391);
}

#[test]
fn expanded_is_fixed_and_may_leave_the_screen() {
    let f = expanded_frame(screen(100, 50, 100));
    assert_eq!(f.width, 600);
    assert_eq!(f.height, 250);
    // x = (100 - 600) / 2 = -250 px: accepted, not clamped.
    assert_eq!(f.x_half, -500);
    assert_eq!(f.y, -200);
}

#[test]
fn frames_do_not_depend_on_the_scale_factor() {
    let a = collapsed_frame(screen(2880, 1800, 100));
    let b = collapsed_frame(screen(2880, 1800, 200));
    assert_eq!(a, b);
    let c = expanded_frame(screen(2880, 1800, 150));
    let d = expanded_frame(screen(2880, 1800, 300));
    assert_eq!(c, d);
}

#[test]
fn two_enters_end_expanded() {
    let m = screen(2880, 900, 200);
    let mut state = OverlayState::Collapsed;
    let first = handle_pointer_event(&mut state, PointerEvent::Entered, Some(m));
    let second = handle_pointer_event(&mut state, PointerEvent::Entered, Some(m));
    let expected = expanded_frame(m);
    assert_eq!(first, Some(expected));
    assert_eq!(second, Some(expected));
    assert_eq!(state, OverlayState::Expanded);
}

#[test]
fn exit_collapses() {
    let m = screen(2880, 900, 200);
    let mut state = OverlayState::Expanded;
    let target = handle_pointer_event(&mut state, PointerEvent::Exited, Some(m));
    assert_eq!(target, Some(collapsed_frame(m)));
    assert_eq!(state, OverlayState::Collapsed);
}

#[test]
fn event_without_a_screen_is_dropped() {
    let mut state = OverlayState::Expanded;
    let target = handle_pointer_event(&mut state, PointerEvent::Entered, None);
    assert_eq!(target, None);
    assert_eq!(state, OverlayState::Expanded);
}

#[test]
fn native_setup_is_idempotent() {
    let mut s = NativeSetup::new();
    let registered_first = apply_native_setup(&mut s);
    assert!(registered_first);
    let after_first = s;
    let registered_second = apply_native_setup(&mut s);
    assert!(!registered_second);
    assert_eq!(s, after_first);
    assert_eq!(s.subsurfaces, 1);
    assert!(s.surface_type_registered);
    assert!(s.style_applied);
    assert!(s.hover_installed);
}

#[test]
fn tracking_options_word() {
    assert_eq!(track_view_options(), 0x281);
    let pair = NSTrackingAreaOptions::NSTrackingMouseEnteredAndExited
        .bitor(NSTrackingAreaOptions::NSTrackingActiveAlways);
    assert_eq!(pair, 0x81);
}

#[test]
fn refresh_replaces_all_tracking_areas() {
    let mut areas = vec![1u64, 2, 3];
    refresh_tracking_areas(&mut areas);
    assert_eq!(areas, vec![0x281u64]);
    let mut none: Vec<u64> = Vec::new();
    refresh_tracking_areas(&mut none);
    assert_eq!(none, vec![0x281u64]);
}

#[test]
fn window_style_constants() {
    let s = notch_window_style();
    assert!(s.borderless);
    assert!(!s.opaque);
    assert!(s.transparent_background);
    assert!(!s.has_shadow);
    assert_eq!(s.level, 40);
    assert!(!s.ignores_mouse_events);
    assert!(s.accepts_mouse_moved_events);
    assert!(s.visible_on_all_spaces);
}
