//! Settings and bounds of a free-roam region capture.

use vstd::prelude::*;
use crate::config::Config;

verus! {

/// How a region capture runs.
#[derive(Clone, Copy, Debug, PartialEq, Eq, Structural)]
pub struct CaptureSettings {
    /// Select a circle instead of a rectangle.
    pub circular: bool,
    /// Show and crop one frozen frame of the desktop instead of the live one.
    pub freeze_screen: bool,
}

/// The capture settings of `config`: rectangular selection over a frozen
/// frame when no configuration has been saved.
pub fn capture_settings(config: Option<&Config>) -> (s: CaptureSettings)
    ensures
        s == match config {
            Some(c) => CaptureSettings {
                circular: c.circular_selection,
                freeze_screen: c.freeze_screen_on_capture,
            },
            None => CaptureSettings { circular: false, freeze_screen: true },
        },
{
    match config {
        Some(c) => CaptureSettings {
            circular: c.circular_selection,
            freeze_screen: c.freeze_screen_on_capture,
        },
        None => CaptureSettings { circular: false, freeze_screen: true },
    }
}

/// Whether the `width` x `height` rectangle at `(x, y)` is non-empty and lies
/// inside a `source_width` x `source_height` bitmap, so it can be cropped out.
pub fn crop_in_bounds(x: i32, y: i32, width: i32, height: i32, source_width: i32, source_height: i32) -> (ok: bool)
    ensures
        ok == (width > 0 && height > 0 && x >= 0 && y >= 0 && x + width <= source_width && y + height
            <= source_height),
{
    let right = x as i64 + width as i64;
    let bottom = y as i64 + height as i64;
    !(width <= 0 || height <= 0 || x < 0 || y < 0 || right > source_width as i64 || bottom > source_height as i64)
}

} // verus!
