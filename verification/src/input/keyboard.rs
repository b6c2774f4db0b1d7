//! The decisions of the keyboard driver: which pan direction and zoom factor
//! the pressed keys ask for.

use vstd::prelude::*;

use crate::micro::MICRO_ONE;

verus! {

/// The camera change one keyboard frame asks for: a world-space translation
/// and a multiplicative zoom factor, in micro units.
#[derive(Debug, Clone, Copy, PartialEq)]
pub struct KeyboardPanZoom {
    pub direction: (i64, i64),
    pub scale: i64,
}

/// Map the pressed keys to a camera change: the arrow keys pan five world
/// units (up and left move the camera positively, down and right
/// negatively), zooming in scales by nine tenths and zooming out by eleven
/// tenths; one key counts per frame, in this order of precedence. Nothing is
/// asked for when none of the keys is down.
pub fn keyboard_pan_zoom(
    up: bool,
    down: bool,
    left: bool,
    right: bool,
    zoom_in: bool,
    zoom_out: bool,
) -> (r: Option<KeyboardPanZoom>)
    ensures
        r == (if up {
            Option::Some(
                KeyboardPanZoom { direction: (0int as i64, (5 * MICRO_ONE) as i64), scale: MICRO_ONE as i64 },
            )
        } else if down {
            Option::Some(
                KeyboardPanZoom { direction: (0int as i64, (-5 * MICRO_ONE) as i64), scale: MICRO_ONE as i64 },
            )
        } else if left {
            Option::Some(
                KeyboardPanZoom { direction: ((5 * MICRO_ONE) as i64, 0int as i64), scale: MICRO_ONE as i64 },
            )
        } else if right {
            Option::Some(
                KeyboardPanZoom { direction: ((-5 * MICRO_ONE) as i64, 0int as i64), scale: MICRO_ONE as i64 },
            )
        } else if zoom_in {
            Option::Some(
                KeyboardPanZoom { direction: (0int as i64, 0int as i64), scale: 900_000int as i64 },
            )
        } else if zoom_out {
            Option::Some(
                KeyboardPanZoom { direction: (0int as i64, 0int as i64), scale: 1_100_000int as i64 },
            )
        } else {
            Option::None
        }),
{
    if up {
        Option::Some(KeyboardPanZoom { direction: (0, 5 * MICRO_ONE), scale: MICRO_ONE })
    } else if down {
        Option::Some(KeyboardPanZoom { direction: (0, -5 * MICRO_ONE), scale: MICRO_ONE })
    } else if left {
        Option::Some(KeyboardPanZoom { direction: (5 * MICRO_ONE, 0), scale: MICRO_ONE })
    } else if right {
        Option::Some(KeyboardPanZoom { direction: (-5 * MICRO_ONE, 0), scale: MICRO_ONE })
    } else if zoom_in {
        Option::Some(KeyboardPanZoom { direction: (0, 0), scale: 900_000 })
    } else if zoom_out {
        Option::Some(KeyboardPanZoom { direction: (0, 0), scale: 1_100_000 })
    } else {
        Option::None
    }
}

} // verus!
