//! The decisions of the mouse driver: which gesture mode the held buttons
//! select, how wheel motion becomes a zoom delta, and the debounce that
//! coalesces a continuous zoom into one tile recomputation.

use vstd::prelude::*;

use crate::camera::main_camera::CameraMode;
use crate::micro::MICRO_ONE;

verus! {

/// How long after the last zoom step the deferred tile recomputation fires:
/// a quarter second, in microseconds.
pub const ZOOM_DEBOUNCE_MICROS: u64 = 250_000;

/// The gesture mode the held mouse buttons select: the primary button alone
/// pans, the secondary alone orbits, anything else leaves only zooming.
pub fn mouse_mode(left_pressed: bool, right_pressed: bool) -> (r: CameraMode)
    ensures
        left_pressed && !right_pressed ==> r == (CameraMode {
            pan: true,
            zoom: false,
            orbit: false,
        }),
        right_pressed && !left_pressed ==> r == (CameraMode {
            pan: false,
            zoom: false,
            orbit: true,
        }),
        left_pressed == right_pressed ==> r == (CameraMode {
            pan: false,
            zoom: true,
            orbit: false,
        }),
{
    if left_pressed && !right_pressed {
        CameraMode::pan()
    } else if right_pressed && !left_pressed {
        CameraMode::orbit()
    } else {
        CameraMode::zoom()
    }
}

/// The zoom delta accumulated wheel steps produce: each step away scales by
/// a tenth, so `1 - steps / 10` as a micro-unit factor.
pub fn wheel_zoom_delta(wheel_steps: i64) -> (r: i64)
    requires
        -0x1000_0000 <= wheel_steps <= 0x1000_0000,
    ensures
        r == MICRO_ONE - wheel_steps * 100_000,
{
    MICRO_ONE - wheel_steps * 100_000
}

/// The zoom debounce: remembers when the last zoom-driven invalidation
/// happened, and fires once the gesture has settled.
#[derive(Debug, Clone, Copy, PartialEq)]
pub struct ZoomDebounce {
    pub last_zoom_micros: Option<u64>,
}

impl ZoomDebounce {
    pub fn new() -> (r: ZoomDebounce)
        ensures
            r.last_zoom_micros is None,
    {
        ZoomDebounce { last_zoom_micros: Option::None }
    }

    /// Note a zoom-driven invalidation: the countdown restarts.
    pub fn note_zoom(&mut self, now_micros: u64)
        ensures
            final(self).last_zoom_micros == Option::Some(now_micros),
    {
        self.last_zoom_micros = Option::Some(now_micros);
    }

    /// Poll once per frame: fires — and disarms — once more than the
    /// debounce interval has passed since the last zoom.
    pub fn poll(&mut self, now_micros: u64) -> (fire: bool)
        ensures
            fire == (old(self).last_zoom_micros matches Option::Some(t) && now_micros > t
                && now_micros - t > ZOOM_DEBOUNCE_MICROS),
            fire ==> final(self).last_zoom_micros is None,
            !fire ==> *final(self) == *old(self),
    {
        match self.last_zoom_micros {
            Option::Some(t) => {
                if now_micros > t && now_micros - t > ZOOM_DEBOUNCE_MICROS {
                    self.last_zoom_micros = Option::None;
                    true
                } else {
                    false
                }
            },
            Option::None => false,
        }
    }
}

} // verus!
