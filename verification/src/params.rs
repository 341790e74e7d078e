//! Fixed layout and behaviour constants of the overlay, and the native
//! tracking-area option flags.

use vstd::prelude::*;

verus! {

/// Numerator of the ratio of the collapsed window width to the screen width.
pub const INIT_WINDOW_WIDTH_RATIO_NUM: u64 = 17;

/// Denominator of the ratio of the collapsed window width to the screen width.
pub const INIT_WINDOW_WIDTH_RATIO_DEN: u64 = 100;

/// Height of the collapsed window, in physical pixels (never scaled).
pub const INIT_WINDOW_HEIGHT: u64 = 32;

/// Native window level of the overlay: above normal application windows,
/// below system-critical overlays.
pub const NOTCH_WINDOW_LEVEL: i64 = 40;

/// Width of the expanded window, in physical pixels (never scaled).
pub const RESIZED_WINDOW_WIDTH: u64 = 600;

/// Height of the expanded window, in physical pixels (never scaled).
pub const RESIZED_WINDOW_HEIGHT: u64 = 250;

/// Interval between two samples of the external player, in milliseconds.
pub const POLL_INTERVAL_MS: u64 = 800;

/// Option flags of a native tracking area, one variant per flag bit.
#[derive(Clone, Copy, PartialEq, Eq, Structural)]
pub enum NSTrackingAreaOptions {
    NSTrackingMouseEnteredAndExited,
    NSTrackingMouseMoved,
    NSTrackingCursorUpdate,
    NSTrackingActiveWhenFirstResponder,
    NSTrackingActiveInKeyWindow,
    NSTrackingActiveInActiveApp,
    NSTrackingActiveAlways,
    NSTrackingAssumeInside,
    NSTrackingInVisibleRect,
    NSTrackingEnabledDuringMouseDrag,
}

impl NSTrackingAreaOptions {
    /// The bit that the native toolkit assigns to this option.
    pub open spec fn spec_bits(self) -> u64 {
        match self {
            NSTrackingAreaOptions::NSTrackingMouseEnteredAndExited => 0x01,
            NSTrackingAreaOptions::NSTrackingMouseMoved => 0x02,
            NSTrackingAreaOptions::NSTrackingCursorUpdate => 0x04,
            NSTrackingAreaOptions::NSTrackingActiveWhenFirstResponder => 0x10,
            NSTrackingAreaOptions::NSTrackingActiveInKeyWindow => 0x20,
            NSTrackingAreaOptions::NSTrackingActiveInActiveApp => 0x40,
            NSTrackingAreaOptions::NSTrackingActiveAlways => 0x80,
            NSTrackingAreaOptions::NSTrackingAssumeInside => 0x100,
            NSTrackingAreaOptions::NSTrackingInVisibleRect => 0x200,
            NSTrackingAreaOptions::NSTrackingEnabledDuringMouseDrag => 0x400,
        }
    }

    /// The bit of this option as a machine value.
    pub fn bits(self) -> (r: u64)
        ensures
            r == self.spec_bits(),
    {
        match self {
            NSTrackingAreaOptions::NSTrackingMouseEnteredAndExited => 0x01,
            NSTrackingAreaOptions::NSTrackingMouseMoved => 0x02,
            NSTrackingAreaOptions::NSTrackingCursorUpdate => 0x04,
            NSTrackingAreaOptions::NSTrackingActiveWhenFirstResponder => 0x10,
            NSTrackingAreaOptions::NSTrackingActiveInKeyWindow => 0x20,
            NSTrackingAreaOptions::NSTrackingActiveInActiveApp => 0x40,
            NSTrackingAreaOptions::NSTrackingActiveAlways => 0x80,
            NSTrackingAreaOptions::NSTrackingAssumeInside => 0x100,
            NSTrackingAreaOptions::NSTrackingInVisibleRect => 0x200,
            NSTrackingAreaOptions::NSTrackingEnabledDuringMouseDrag => 0x400,
        }
    }

    /// Combines two option flags into one native option word.
    pub fn bitor(self, rhs: Self) -> (r: u64)
        ensures
            r == self.spec_bits() | rhs.spec_bits(),
    {
        self.bits() | rhs.bits()
    }
}

} // verus!
