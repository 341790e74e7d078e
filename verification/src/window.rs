//! The notch window controller's decisions: the one-time native style,
//! the idempotent setup of the custom content surface, and the refresh of
//! the surface's pointer tracking areas.
//!
//! The message sends that carry these decisions into the native toolkit
//! are platform FFI and live outside this crate; everything here is the
//! state they are driven by.

use vstd::prelude::*;
use crate::params::{NSTrackingAreaOptions, NOTCH_WINDOW_LEVEL};

verus! {

/// The native style applied to the overlay window exactly once, before
/// it becomes visible.
#[derive(Clone, Copy, PartialEq, Eq, Structural, Debug)]
pub struct WindowStyle {
    /// No title bar or border.
    pub borderless: bool,
    /// Window background is not opaque.
    pub opaque: bool,
    /// Background fill is fully transparent.
    pub transparent_background: bool,
    /// No drop shadow.
    pub has_shadow: bool,
    /// Elevated window level, above normal application windows.
    pub level: i64,
    /// The window still receives pointer events.
    pub ignores_mouse_events: bool,
    /// The window is told about pointer movement.
    pub accepts_mouse_moved_events: bool,
    /// Visible on every virtual desktop.
    pub visible_on_all_spaces: bool,
}

/// The one style the overlay window is given.
pub open spec fn notch_window_style_spec() -> WindowStyle {
    WindowStyle {
        borderless: true,
        opaque: false,
        transparent_background: true,
        has_shadow: false,
        level: NOTCH_WINDOW_LEVEL as i64,
        ignores_mouse_events: false,
        accepts_mouse_moved_events: true,
        visible_on_all_spaces: true,
    }
}

/// Returns the style of the overlay window: borderless, non-opaque with a
/// transparent fill, shadowless, at the fixed elevated level, receiving
/// pointer and pointer-moved events, visible on all spaces.
pub fn notch_window_style() -> (s: WindowStyle)
    ensures
        s == notch_window_style_spec(),
        s.level == NOTCH_WINDOW_LEVEL,
{
    WindowStyle {
        borderless: true,
        opaque: false,
        transparent_background: true,
        has_shadow: false,
        level: NOTCH_WINDOW_LEVEL,
        ignores_mouse_events: false,
        accepts_mouse_moved_events: true,
        visible_on_all_spaces: true,
    }
}

/// The observable state the native setup of one window drives: whether
/// the custom surface type is registered in this process, whether the
/// style was applied, how many content sub-surfaces the window carries,
/// and whether the hover tracker is installed.
#[derive(Clone, Copy, PartialEq, Eq, Structural, Debug)]
pub struct NativeSetup {
    /// The custom surface type is registered process-wide; registering it
    /// a second time under the same name would be a fatal toolkit error.
    pub surface_type_registered: bool,
    /// The one-time window style has been applied.
    pub style_applied: bool,
    /// Number of content sub-surfaces attached to the window.
    pub subsurfaces: u32,
    /// The hover tracker observes the content surface.
    pub hover_installed: bool,
}

impl NativeSetup {
    /// The state of a window before any setup ran.
    pub open spec fn initial_spec() -> NativeSetup {
        NativeSetup {
            surface_type_registered: false,
            style_applied: false,
            subsurfaces: 0,
            hover_installed: false,
        }
    }

    /// A fresh window: nothing registered, styled or attached.
    pub fn new() -> (s: NativeSetup)
        ensures
            s == NativeSetup::initial_spec(),
    {
        NativeSetup {
            surface_type_registered: false,
            style_applied: false,
            subsurfaces: 0,
            hover_installed: false,
        }
    }
}

/// The state the native setup leaves behind, whatever it started from:
/// type registered, style applied, exactly one sub-surface, tracker
/// installed.
pub open spec fn after_setup(s: NativeSetup) -> NativeSetup {
    NativeSetup {
        surface_type_registered: true,
        style_applied: true,
        subsurfaces: 1,
        hover_installed: true,
    }
}

/// Looks the custom surface type up in the process-wide registry,
/// registering it only if it is absent. Returns whether a registration
/// was performed, so a caller never re-registers an existing type —
/// re-registration under the same name is fatal in the native toolkit.
pub fn lookup_or_register_surface_type(s: &mut NativeSetup) -> (performed: bool)
    ensures
        final(s).surface_type_registered,
        performed == !old(s).surface_type_registered,
        final(s).style_applied == old(s).style_applied,
        final(s).subsurfaces == old(s).subsurfaces,
        final(s).hover_installed == old(s).hover_installed,
{
    if s.surface_type_registered {
        false
    } else {
        s.surface_type_registered = true;
        true
    }
}

/// Runs the one-time native setup: applies the window style, registers
/// the custom surface type if this process has not done so yet, attaches
/// the content sub-surface unless one is already attached, and installs
/// the hover tracker. Returns whether the surface type was registered by
/// this call.
pub fn apply_native_setup(s: &mut NativeSetup) -> (registered_now: bool)
    ensures
        *final(s) == after_setup(*old(s)),
        registered_now == !old(s).surface_type_registered,
{
    let registered_now = lookup_or_register_surface_type(s);
    s.style_applied = true;
    if s.subsurfaces != 1 {
        s.subsurfaces = 1;
    }
    s.hover_installed = true;
    registered_now
}

/// The native setup is idempotent: running it on a window it already ran
/// on changes nothing — no second sub-surface, no re-registration.
pub proof fn lemma_setup_idempotent(s: NativeSetup)
    ensures
        after_setup(after_setup(s)) == after_setup(s),
        after_setup(s).subsurfaces == 1,
        after_setup(s).surface_type_registered,
{
}

/// The option word of the overlay's tracking area: pointer enter and exit
/// events, active always, over the visible rectangle.
pub open spec fn track_view_options_spec() -> u64 {
    0x281
}

/// Combines the option flags of the overlay's tracking area.
pub fn track_view_options() -> (r: u64)
    ensures
        r == track_view_options_spec(),
{
    let r = NSTrackingAreaOptions::NSTrackingMouseEnteredAndExited.bitor(
        NSTrackingAreaOptions::NSTrackingActiveAlways,
    ) | NSTrackingAreaOptions::NSTrackingInVisibleRect.bits();
    proof {
        assert((0x01u64 | 0x80u64) | 0x200u64 == 0x281u64) by (bit_vector);
    }
    r
}

/// Rebuilds the tracking areas of the content surface: every existing
/// area is removed and a single area with the overlay's option word is
/// installed, whatever was there before.
pub fn refresh_tracking_areas(areas: &mut Vec<u64>)
    ensures
        final(areas)@ =~= seq![track_view_options_spec()],
{
    while areas.len() > 0
        decreases areas.len(),
    {
        areas.pop();
    }
    let opts = track_view_options();
    areas.push(opts);
}

} // verus!
