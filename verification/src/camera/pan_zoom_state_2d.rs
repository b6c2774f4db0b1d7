//! The planar camera gesture state: pan and zoom over the flat image.
//!
//! All scalars are micro units (see `crate::micro`). The state holds the
//! camera's world translation and its orthographic zoom scale; a gesture
//! update applies the delta from the gesture's initial snapshot, clamps the
//! scale, keeps the point under the cursor stationary while zooming, and
//! raises the invalidation signals.

use vstd::prelude::*;

use crate::camera::main_camera::{CameraMode, Invalidate};
use crate::frac::Frac;
use crate::micro::{mul_micro, mul_micro_spec, MICRO_ONE};
use crate::rendering::tiled_image::TiledImage;

verus! {

/// Magnitude bound on the micro-unit scalars a planar gesture update takes.
pub const PAN_ZOOM_LIM: i64 = 0x80_0000_0000;

/// The planar camera state: world translation and orthographic zoom scale,
/// in micro units.
#[derive(Debug, Clone, Copy, PartialEq)]
pub struct PanZoomState2d {
    pub translation: (i64, i64),
    pub scale: i64,
}

/// The zoom scale an update settles on: the initial scale times the zoom
/// delta (one when not zooming), clamped from below by the smallest allowed
/// scale and from above by the largest.
pub open spec fn applied_scale_spec(
    initial_scale: int,
    mode: CameraMode,
    delta_zoom: int,
    min_scale: int,
    max_scale: int,
) -> int {
    let dz = if mode.zoom {
        delta_zoom
    } else {
        MICRO_ONE as int
    };
    vstd::math::min(vstd::math::max(mul_micro_spec(initial_scale, dz), min_scale), max_scale)
}

/// The largest zoom scale allowed: the image's larger world extent over the
/// smallest on-screen image size allowed, as a micro-unit scale.
pub open spec fn max_zoom_scale_spec(world_image_max: (int, int), min_image_size: int) -> int {
    (vstd::math::max(world_image_max.0, world_image_max.1) * (MICRO_ONE as int)) / min_image_size
}

impl PanZoomState2d {
    pub fn new(translation: (i64, i64), scale: i64) -> (r: PanZoomState2d)
        ensures
            r == (PanZoomState2d { translation, scale }),
    {
        PanZoomState2d { translation, scale }
    }

    /// The snapshot a gesture starts from: the camera's current translation
    /// and, under an orthographic projection, its scale (one otherwise).
    pub fn get_initial_state(&self, translation: (i64, i64), projection_scale: Option<i64>) -> (r:
        PanZoomState2d)
        ensures
            r.translation == translation,
            r.scale == match projection_scale {
                Option::Some(s) => s,
                Option::None => MICRO_ONE as i64,
            },
    {
        PanZoomState2d {
            translation,
            scale: match projection_scale {
                Option::Some(s) => s,
                Option::None => MICRO_ONE,
            },
        }
    }

    /// Apply one gesture update, as the delta from the gesture's initial
    /// snapshot.
    ///
    /// When the mode includes neither pan nor zoom, or nothing moved and the
    /// scale is unchanged, the state stays put. Otherwise the new scale is
    /// the clamped product of the initial scale and the zoom delta; the
    /// translation is the initial translation shifted by the scaled pan
    /// delta (vertical axis reflected) and by the correction that keeps the
    /// point under the cursor stationary during the zoom; the active pyramid
    /// level is reselected for the new scale; and the invalidation signals
    /// are raised for any pan motion and any scale change.
    pub fn apply(
        &mut self,
        mode: CameraMode,
        initial_state: &PanZoomState2d,
        current_pos: (i64, i64),
        viewport_centre: (i64, i64),
        delta_zoom: i64,
        delta_move: (i64, i64),
        min_camera_zoom_scale: i64,
        world_image_max_size: (i64, i64),
        min_image_size: i64,
        image: Option<&TiledImage>,
        level: &mut usize,
        invalidate: &mut Invalidate,
    )
        requires
            0 < initial_state.scale <= PAN_ZOOM_LIM,
            -0x1000_0000_0000_0000 <= initial_state.translation.0 <= 0x1000_0000_0000_0000,
            -0x1000_0000_0000_0000 <= initial_state.translation.1 <= 0x1000_0000_0000_0000,
            -PAN_ZOOM_LIM <= delta_zoom <= PAN_ZOOM_LIM,
            -PAN_ZOOM_LIM <= delta_move.0 <= PAN_ZOOM_LIM,
            -PAN_ZOOM_LIM <= delta_move.1 <= PAN_ZOOM_LIM,
            -PAN_ZOOM_LIM <= current_pos.0 <= PAN_ZOOM_LIM,
            -PAN_ZOOM_LIM <= current_pos.1 <= PAN_ZOOM_LIM,
            -PAN_ZOOM_LIM <= viewport_centre.0 <= PAN_ZOOM_LIM,
            -PAN_ZOOM_LIM <= viewport_centre.1 <= PAN_ZOOM_LIM,
            1 <= min_camera_zoom_scale <= PAN_ZOOM_LIM,
            0 <= world_image_max_size.0 <= PAN_ZOOM_LIM,
            0 <= world_image_max_size.1 <= PAN_ZOOM_LIM,
            1 <= min_image_size,
            1 <= max_zoom_scale_spec(
                (world_image_max_size.0 as int, world_image_max_size.1 as int),
                min_image_size as int,
            ) <= PAN_ZOOM_LIM,
            match image {
                Option::Some(img) => img.wf(),
                Option::None => true,
            },
        ensures
            ({
                let scale = applied_scale_spec(
                    initial_state.scale as int,
                    mode,
                    delta_zoom as int,
                    min_camera_zoom_scale as int,
                    max_zoom_scale_spec(
                        (world_image_max_size.0 as int, world_image_max_size.1 as int),
                        min_image_size as int,
                    ),
                );
                let ds = initial_state.scale - scale;
                let moved = delta_move.0 != 0 || delta_move.1 != 0;
                let act = (mode.pan || mode.zoom) && (moved || ds != 0);
                &&& !act ==> *final(self) == *old(self) && *final(level) == *old(level)
                    && *final(invalidate) == *old(invalidate)
                &&& act ==> final(self).scale == scale
                &&& act ==> final(self).translation.0 == initial_state.translation.0 - (if mode.pan {
                    mul_micro_spec(scale, delta_move.0 as int)
                } else {
                    0int
                }) + mul_micro_spec(current_pos.0 - viewport_centre.0, ds)
                &&& act ==> final(self).translation.1 == initial_state.translation.1 - (if mode.pan {
                    mul_micro_spec(scale, -delta_move.1 as int)
                } else {
                    0int
                }) + mul_micro_spec(-(current_pos.1 - viewport_centre.1), ds)
                &&& act ==> match image {
                    Option::Some(img) => *final(level) == img.level_at_spec(
                        Frac { num: scale as i64, den: MICRO_ONE },
                    ),
                    Option::None => *final(level) == *old(level),
                }
                &&& act ==> final(invalidate).translate == (old(invalidate).translate || moved)
                &&& act ==> final(invalidate).zoom == (old(invalidate).zoom || ds != 0)
            }),
    {
        if !(mode.pan || mode.zoom) {
            return ;
        }
        // The zoom delta counts only in zoom mode.
        let delta_zoom_with_mode = if mode.zoom {
            delta_zoom
        } else {
            MICRO_ONE
        };

        // Clamp the scale between the smallest and largest allowed.
        let max_el = if world_image_max_size.0 >= world_image_max_size.1 {
            world_image_max_size.0
        } else {
            world_image_max_size.1
        };
        let max_camera_zoom_scale = ((max_el as u64 * MICRO_ONE as u64) / min_image_size as u64)
            as i64;
        proof {
            assert(-0x2000_0000_0000_0000 * (MICRO_ONE as int) <= initial_state.scale
                * delta_zoom_with_mode <= 0x2000_0000_0000_0000 * (MICRO_ONE as int))
                by (nonlinear_arith)
                requires
                    0 < initial_state.scale <= PAN_ZOOM_LIM,
                    -PAN_ZOOM_LIM <= delta_zoom_with_mode <= PAN_ZOOM_LIM,
            ;
        }
        let raw = mul_micro(initial_state.scale, delta_zoom_with_mode);
        let raised = if raw >= min_camera_zoom_scale {
            raw
        } else {
            min_camera_zoom_scale
        };
        let scale = if raised <= max_camera_zoom_scale {
            raised
        } else {
            max_camera_zoom_scale
        };
        let delta_scale = initial_state.scale - scale;

        proof {
            assert(1 <= scale <= PAN_ZOOM_LIM);
            assert(-0x2000_0000_0000_0000 * (MICRO_ONE as int) <= (current_pos.0
                - viewport_centre.0) * delta_scale <= 0x2000_0000_0000_0000 * (MICRO_ONE as int)
                && -0x2000_0000_0000_0000 * (MICRO_ONE as int) <= (-(current_pos.1
                - viewport_centre.1)) * delta_scale <= 0x2000_0000_0000_0000 * (MICRO_ONE as int))
                by (nonlinear_arith)
                requires
                    -2 * PAN_ZOOM_LIM <= current_pos.0 - viewport_centre.0 <= 2 * PAN_ZOOM_LIM,
                    -2 * PAN_ZOOM_LIM <= current_pos.1 - viewport_centre.1 <= 2 * PAN_ZOOM_LIM,
                    -2 * PAN_ZOOM_LIM <= delta_scale <= 2 * PAN_ZOOM_LIM,
            ;
            assert(-0x2000_0000_0000_0000 * (MICRO_ONE as int) <= scale * delta_move.0
                <= 0x2000_0000_0000_0000 * (MICRO_ONE as int)
                && -0x2000_0000_0000_0000 * (MICRO_ONE as int) <= scale * (-delta_move.1)
                <= 0x2000_0000_0000_0000 * (MICRO_ONE as int)
                && scale * 0 == 0) by (nonlinear_arith)
                requires
                    1 <= scale <= PAN_ZOOM_LIM,
                    -PAN_ZOOM_LIM <= delta_move.0 <= PAN_ZOOM_LIM,
                    -PAN_ZOOM_LIM <= delta_move.1 <= PAN_ZOOM_LIM,
            ;
        }

        // Adjust the translation so the point under the cursor stays put.
        let move_due_to_zoom = (
            mul_micro(current_pos.0 - viewport_centre.0, delta_scale),
            mul_micro(-(current_pos.1 - viewport_centre.1), delta_scale),
        );

        // The pan delta counts only in pan mode; its vertical axis reflects.
        let delta_move_with_mode = if mode.pan {
            (delta_move.0, -delta_move.1)
        } else {
            (0i64, 0i64)
        };

        if delta_move.0 != 0 || delta_move.1 != 0 || delta_scale != 0 {
            self.scale = scale;
            match image {
                Option::Some(img) => {
                    *level = img.get_level_at(Frac { num: scale, den: MICRO_ONE });
                },
                Option::None => {},
            }
            self.translation = (
                initial_state.translation.0 - mul_micro(scale, delta_move_with_mode.0)
                    + move_due_to_zoom.0,
                initial_state.translation.1 - mul_micro(scale, delta_move_with_mode.1)
                    + move_due_to_zoom.1,
            );
            if delta_move.0 != 0 || delta_move.1 != 0 {
                invalidate.translate = true;
            }
            if delta_scale != 0 {
                invalidate.zoom = true;
            }
        }
    }
}

} // verus!
