//! The minimap's geometry: fitting the image thumbnail into the minimap
//! square and centring it.

use vstd::prelude::*;

use crate::frac::Frac;
use crate::rendering::tiled_image::DIM_LIM;

verus! {

/// The minimap square's border, in pixels.
pub const BORDER_SIZE: i64 = 2;

/// The minimap square's extent, in pixels.
pub const MINIMAP_SIZE: i64 = 200;

/// The extent left for the thumbnail inside the borders.
pub const THUMBNAIL_SIZE: i64 = MINIMAP_SIZE - 2 * BORDER_SIZE;

/// The scale that fits an image into the thumbnail square, and the offset
/// that centres the scaled image in it: the scale is the square's extent
/// over the image's larger side, and each offset is half the leftover space
/// on that axis.
pub fn get_thumbnail_scale_and_offset(width: u32, height: u32) -> (r: (Frac, (Frac, Frac)))
    requires
        1 <= width <= DIM_LIM,
        1 <= height <= DIM_LIM,
    ensures
        ({
            let m = vstd::math::max(width as int, height as int);
            &&& r.0 == (Frac { num: THUMBNAIL_SIZE as i64, den: m as i64 })
            &&& r.1.0 == (Frac {
                num: (THUMBNAIL_SIZE * (m - width)) as i64,
                den: (2 * m) as i64,
            })
            &&& r.1.1 == (Frac {
                num: (THUMBNAIL_SIZE * (m - height)) as i64,
                den: (2 * m) as i64,
            })
            &&& r.0.wf() && r.1.0.wf() && r.1.1.wf()
        }),
{
    let m = if width >= height {
        width
    } else {
        height
    };
    proof {
        assert(0 <= THUMBNAIL_SIZE * (m - width) <= 0x100_0000_0000 && 0 <= THUMBNAIL_SIZE * (m
            - height) <= 0x100_0000_0000) by (nonlinear_arith)
            requires
                width <= m <= DIM_LIM,
                height <= m <= DIM_LIM,
        ;
    }
    let scale = Frac { num: THUMBNAIL_SIZE, den: m as i64 };
    let off_x = Frac { num: THUMBNAIL_SIZE * (m as i64 - width as i64), den: 2 * m as i64 };
    let off_y = Frac { num: THUMBNAIL_SIZE * (m as i64 - height as i64), den: 2 * m as i64 };
    (scale, (off_x, off_y))
}

} // verus!
