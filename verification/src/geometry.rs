//! Pure window geometry: the collapsed and the expanded frame of the
//! overlay, computed from a snapshot of the primary screen.
//!
//! All lengths are physical pixels. A horizontally centered frame can sit
//! on a half-pixel boundary, so the horizontal origin is carried in
//! half-pixels (`x_half`); every other field is a whole number of pixels.

use vstd::prelude::*;
use crate::params::{
    INIT_WINDOW_HEIGHT, INIT_WINDOW_WIDTH_RATIO_DEN, INIT_WINDOW_WIDTH_RATIO_NUM,
    RESIZED_WINDOW_HEIGHT, RESIZED_WINDOW_WIDTH,
};

verus! {

/// A read-only snapshot of the primary display: frame size in physical
/// pixels and the logical-to-physical scale factor in hundredths
/// (a scale of 2.0 is stored as 200). Recomputed before every transition,
/// never cached.
#[derive(Clone, Copy, PartialEq, Eq, Structural, Debug)]
pub struct ScreenMetrics {
    pub width: u32,
    pub height: u32,
    pub scale_pct: u32,
}

impl ScreenMetrics {
    /// A screen snapshot is well formed when its scale factor is positive.
    pub open spec fn wf(self) -> bool {
        self.scale_pct > 0
    }
}

/// A window frame in physical pixels. `x_half` is the horizontal origin in
/// half-pixels (twice the pixel coordinate), so that exact centering needs
/// no rounding; it is negative when the frame is wider than the screen.
/// `y` is the bottom edge measured from the screen's bottom, pinning the
/// frame to the top edge of the screen.
#[derive(Clone, Copy, PartialEq, Eq, Structural, Debug)]
pub struct WindowFrame {
    pub x_half: i64,
    pub y: i64,
    pub width: i64,
    pub height: i64,
}

/// Width of the collapsed frame: the screen width times the fixed ratio,
/// rounded to the nearest pixel, halves up. The scale factor cancels out
/// of the logical-to-physical round trip, so it does not appear here.
pub open spec fn collapsed_width_px(width: int) -> int {
    (width * INIT_WINDOW_WIDTH_RATIO_NUM + INIT_WINDOW_WIDTH_RATIO_DEN / 2)
        / INIT_WINDOW_WIDTH_RATIO_DEN as int
}

/// The collapsed frame: ratio-derived width, fixed height, horizontally
/// centered, pinned to the top edge of the screen.
pub open spec fn collapsed_frame_spec(m: ScreenMetrics) -> WindowFrame {
    WindowFrame {
        x_half: (m.width - collapsed_width_px(m.width as int)) as i64,
        y: (m.height - INIT_WINDOW_HEIGHT) as i64,
        width: collapsed_width_px(m.width as int) as i64,
        height: INIT_WINDOW_HEIGHT as i64,
    }
}

/// The expanded frame: fixed size, horizontally centered, pinned to the
/// top edge of the screen.
pub open spec fn expanded_frame_spec(m: ScreenMetrics) -> WindowFrame {
    WindowFrame {
        x_half: (m.width - RESIZED_WINDOW_WIDTH) as i64,
        y: (m.height - RESIZED_WINDOW_HEIGHT) as i64,
        width: RESIZED_WINDOW_WIDTH as i64,
        height: RESIZED_WINDOW_HEIGHT as i64,
    }
}

/// Computes the collapsed frame of the overlay for the given screen.
///
/// The width is the nearest pixel to the fixed ratio of the screen width
/// (halves rounded up), the height is fixed and unscaled, the frame is
/// exactly centered (`x_half` counts half-pixels) and pinned to the top
/// edge. A screen narrower than the frame yields a negative origin; the
/// frame is not clamped.
pub fn collapsed_frame(m: ScreenMetrics) -> (f: WindowFrame)
    ensures
        f == collapsed_frame_spec(m),
        f.x_half == m.width - f.width,
        f.height == INIT_WINDOW_HEIGHT,
        INIT_WINDOW_WIDTH_RATIO_NUM * m.width - INIT_WINDOW_WIDTH_RATIO_DEN / 2
            < INIT_WINDOW_WIDTH_RATIO_DEN * f.width,
        INIT_WINDOW_WIDTH_RATIO_DEN * f.width
            <= INIT_WINDOW_WIDTH_RATIO_NUM * m.width + INIT_WINDOW_WIDTH_RATIO_DEN / 2,
{
    let scaled: u64 = m.width as u64 * INIT_WINDOW_WIDTH_RATIO_NUM
        + INIT_WINDOW_WIDTH_RATIO_DEN / 2;
    let width: u64 = scaled / INIT_WINDOW_WIDTH_RATIO_DEN;
    proof {
        assert(scaled == INIT_WINDOW_WIDTH_RATIO_DEN * (scaled / INIT_WINDOW_WIDTH_RATIO_DEN)
            + scaled % INIT_WINDOW_WIDTH_RATIO_DEN) by (nonlinear_arith);
    }
    WindowFrame {
        x_half: m.width as i64 - width as i64,
        y: m.height as i64 - INIT_WINDOW_HEIGHT as i64,
        width: width as i64,
        height: INIT_WINDOW_HEIGHT as i64,
    }
}

/// Computes the expanded frame of the overlay for the given screen: a
/// fixed, unscaled size, exactly centered and pinned to the top edge.
/// A screen smaller than the frame yields a negative origin.
pub fn expanded_frame(m: ScreenMetrics) -> (f: WindowFrame)
    ensures
        f == expanded_frame_spec(m),
        f.x_half == m.width - f.width,
        f.width == RESIZED_WINDOW_WIDTH,
        f.height == RESIZED_WINDOW_HEIGHT,
{
    WindowFrame {
        x_half: m.width as i64 - RESIZED_WINDOW_WIDTH as i64,
        y: m.height as i64 - RESIZED_WINDOW_HEIGHT as i64,
        width: RESIZED_WINDOW_WIDTH as i64,
        height: RESIZED_WINDOW_HEIGHT as i64,
    }
}

/// Both frames are deterministic in the screen's pixel size alone: the
/// scale factor cancels out, so two screens that agree on width and height
/// get identical frames whatever their scale factors.
pub proof fn lemma_frames_ignore_scale(m1: ScreenMetrics, m2: ScreenMetrics)
    requires
        m1.wf(),
        m2.wf(),
        m1.width == m2.width,
        m1.height == m2.height,
    ensures
        collapsed_frame_spec(m1) == collapsed_frame_spec(m2),
        expanded_frame_spec(m1) == expanded_frame_spec(m2),
{
}

/// Both frame functions center horizontally: twice the pixel origin is
/// exactly the screen width minus the frame width, for every screen,
/// including one narrower than the frame (negative origin).
pub proof fn lemma_frames_centered(m: ScreenMetrics)
    ensures
        collapsed_frame_spec(m).x_half
            == m.width - collapsed_frame_spec(m).width,
        expanded_frame_spec(m).x_half
            == m.width - expanded_frame_spec(m).width,
{
}

} // verus!
