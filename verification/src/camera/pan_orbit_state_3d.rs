//! The orbital camera gesture state: pan, zoom and orbit around a centre.
//!
//! All scalars are micro units (see `crate::micro`); angles are micro
//! radians. The state holds the spherical parameters `(center, radius,
//! pitch, yaw)`; the camera transform is recomputed from them by the caller
//! whenever an update reports that something changed.

use vstd::prelude::*;

use crate::camera::main_camera::{CameraMode, Invalidate};
use crate::micro::{
    mul_micro, mul_micro_spec, lemma_mul_micro_bound, wrap_once_spec, wrap_angle, MICRO_ONE,
    PI_MICRO, TAU_MICRO,
};

verus! {

/// Half of `PI_MICRO`: a quarter turn in micro radians, rounded down.
pub const HALF_PI_MICRO: i64 = 1_570_796;

/// Magnitude bound on the micro-unit deltas, radii and centre coordinates an
/// orbital gesture update takes.
pub const ORBIT_LIM: i64 = 0x2000_0000;

/// The orbital camera state, in micro units and micro radians.
#[derive(Debug, Clone, Copy, PartialEq)]
pub struct PanOrbitState3d {
    pub center: (i64, i64, i64),
    pub radius: i64,
    pub pitch: i64,
    pub yaw: i64,
    pub is_added: bool,
}

/// The horizontal orbit delta, sign-flipped while the camera is upright so
/// the drag direction stays visually consistent; kept as is while the pitch
/// says the camera is upside down (beyond a quarter turn either way).
pub open spec fn orbit_delta_x_spec(initial_pitch: int, dm_x: int) -> int {
    if initial_pitch < -HALF_PI_MICRO || initial_pitch > HALF_PI_MICRO {
        dm_x
    } else {
        -dm_x
    }
}

impl PanOrbitState3d {
    /// Yaw and pitch stay within half a turn of zero: in `(-π, π]`.
    pub open spec fn angles_wf(self) -> bool {
        &&& -PI_MICRO < self.pitch <= PI_MICRO
        &&& -PI_MICRO < self.yaw <= PI_MICRO
    }

    pub fn new(center: (i64, i64, i64), radius: i64, pitch: i64, yaw: i64, is_added: bool) -> (r:
        PanOrbitState3d)
        ensures
            r == (PanOrbitState3d { center, radius, pitch, yaw, is_added }),
    {
        PanOrbitState3d { center, radius, pitch, yaw, is_added }
    }

    /// The snapshot a gesture starts from: the current state itself.
    pub fn get_initial_state(&self) -> (r: PanOrbitState3d)
        ensures
            r == *self,
    {
        *self
    }

    /// Apply one gesture update, as the delta from the gesture's initial
    /// snapshot.
    ///
    /// Orbiting adds the scaled drag to yaw and pitch and wraps both back
    /// into half a turn of zero. Zooming scales the radius multiplicatively,
    /// so zooming feels perceptually linear. Panning moves the centre along
    /// the camera's current right and up axes (unit vectors, supplied by the
    /// caller from the camera transform), scaled by the sensitivity and the
    /// current radius so pan speed adapts to the zoom. Returns whether the
    /// camera transform must be recomputed from the state: after any change,
    /// and on the first update after activation. Any pending invalidation
    /// signals are consumed.
    pub fn apply(
        &mut self,
        mode: CameraMode,
        initial_state: &PanOrbitState3d,
        delta_zoom: i64,
        delta_move: (i64, i64),
        orbit_sensitivity: i64,
        pan_sensitivity: i64,
        right: (i64, i64, i64),
        up: (i64, i64, i64),
        invalidate: &mut Invalidate,
    ) -> (recompute: bool)
        requires
            initial_state.angles_wf(),
            old(self).angles_wf(),
            -ORBIT_LIM <= delta_zoom <= ORBIT_LIM,
            -ORBIT_LIM <= delta_move.0 <= ORBIT_LIM,
            -ORBIT_LIM <= delta_move.1 <= ORBIT_LIM,
            0 <= orbit_sensitivity <= MICRO_ONE,
            0 <= pan_sensitivity <= MICRO_ONE,
            -ORBIT_LIM <= initial_state.radius <= ORBIT_LIM,
            -ORBIT_LIM <= old(self).radius <= ORBIT_LIM,
            -MICRO_ONE <= right.0 <= MICRO_ONE,
            -MICRO_ONE <= right.1 <= MICRO_ONE,
            -MICRO_ONE <= right.2 <= MICRO_ONE,
            -MICRO_ONE <= up.0 <= MICRO_ONE,
            -MICRO_ONE <= up.1 <= MICRO_ONE,
            -MICRO_ONE <= up.2 <= MICRO_ONE,
            -0x1000_0000_0000_0000 <= initial_state.center.0 <= 0x1000_0000_0000_0000,
            -0x1000_0000_0000_0000 <= initial_state.center.1 <= 0x1000_0000_0000_0000,
            -0x1000_0000_0000_0000 <= initial_state.center.2 <= 0x1000_0000_0000_0000,
            -(TAU_MICRO as int) * (MICRO_ONE as int) <= delta_move.0 * orbit_sensitivity <= (
            TAU_MICRO as int) * (MICRO_ONE as int),
            -(TAU_MICRO as int) * (MICRO_ONE as int) <= delta_move.1 * orbit_sensitivity <= (
            TAU_MICRO as int) * (MICRO_ONE as int),
        ensures
            final(self).angles_wf(),
            ({
                let orbiting = mode.orbit && (delta_move.0 != 0 || delta_move.1 != 0);
                let zooming = mode.zoom && delta_zoom != MICRO_ONE;
                let panning = mode.pan && (delta_move.0 != 0 || delta_move.1 != 0);
                let radius = if zooming {
                    mul_micro_spec(initial_state.radius as int, delta_zoom as int)
                } else {
                    old(self).radius as int
                };
                &&& final(self).yaw == if orbiting {
                    wrap_once_spec(
                        initial_state.yaw + mul_micro_spec(
                            orbit_delta_x_spec(initial_state.pitch as int, delta_move.0 as int),
                            orbit_sensitivity as int,
                        ),
                    )
                } else {
                    old(self).yaw as int
                }
                &&& final(self).pitch == if orbiting {
                    wrap_once_spec(
                        initial_state.pitch + mul_micro_spec(
                            delta_move.1 as int,
                            orbit_sensitivity as int,
                        ),
                    )
                } else {
                    old(self).pitch as int
                }
                &&& final(self).radius == radius
                &&& ({
                    let c = if panning {
                        pan_center_spec(
                            initial_state.center,
                            delta_move,
                            pan_sensitivity as int,
                            radius,
                            right,
                            up,
                        )
                    } else {
                        (
                            old(self).center.0 as int,
                            old(self).center.1 as int,
                            old(self).center.2 as int,
                        )
                    };
                    final(self).center.0 == c.0 && final(self).center.1 == c.1
                        && final(self).center.2 == c.2
                })
                &&& recompute == (orbiting || zooming || panning || old(self).is_added)
                &&& final(self).is_added == (if recompute {
                    false
                } else {
                    old(self).is_added
                })
                &&& *final(invalidate) == (Invalidate { translate: false, zoom: false })
            }),
    {
        let mut any = false;

        if mode.orbit && (delta_move.0 != 0 || delta_move.1 != 0) {
            any = true;
            // If we are upside down, keep the horizontal drag's sign.
            let delta_move_x = if initial_state.pitch < -HALF_PI_MICRO || initial_state.pitch
                > HALF_PI_MICRO {
                delta_move.0
            } else {
                -delta_move.0
            };
            proof {
                assert(-(TAU_MICRO as int) * (MICRO_ONE as int) <= delta_move_x
                    * orbit_sensitivity <= (TAU_MICRO as int) * (MICRO_ONE as int))
                    by (nonlinear_arith)
                    requires
                        delta_move_x == delta_move.0 || delta_move_x == -delta_move.0,
                        -(TAU_MICRO as int) * (MICRO_ONE as int) <= delta_move.0
                            * orbit_sensitivity <= (TAU_MICRO as int) * (MICRO_ONE as int),
                ;
                lemma_mul_micro_bound(
                    delta_move_x as int,
                    orbit_sensitivity as int,
                    TAU_MICRO as int,
                );
                lemma_mul_micro_bound(
                    delta_move.1 as int,
                    orbit_sensitivity as int,
                    TAU_MICRO as int,
                );
            }
            self.yaw = wrap_angle(initial_state.yaw + mul_micro(delta_move_x, orbit_sensitivity));
            self.pitch = wrap_angle(
                initial_state.pitch + mul_micro(delta_move.1, orbit_sensitivity),
            );
        }

        if mode.zoom && delta_zoom != MICRO_ONE {
            any = true;
            // Multiplicative, not additive, so zoom feels exponential.
            proof {
                assert(-0x2000_0000_0000_0000 * (MICRO_ONE as int) <= initial_state.radius
                    * delta_zoom <= 0x2000_0000_0000_0000 * (MICRO_ONE as int)
                    && -(ORBIT_LIM as int) * (ORBIT_LIM as int) <= initial_state.radius
                    * delta_zoom <= (ORBIT_LIM as int) * (ORBIT_LIM as int)) by (nonlinear_arith)
                    requires
                        -ORBIT_LIM <= initial_state.radius <= ORBIT_LIM,
                        -ORBIT_LIM <= delta_zoom <= ORBIT_LIM,
                ;
                lemma_mul_micro_bound(
                    initial_state.radius as int,
                    delta_zoom as int,
                    0x80_0000_0000,
                );
            }
            self.radius = mul_micro(initial_state.radius, delta_zoom);
        }

        // To pan, move the centre along the camera's right and up axes,
        // scaled by the radius so the pan adapts to the current zoom.
        if mode.pan && (delta_move.0 != 0 || delta_move.1 != 0) {
            any = true;
            proof {
                assert(-(ORBIT_LIM as int) * (MICRO_ONE as int) <= (-delta_move.0)
                    * pan_sensitivity <= (ORBIT_LIM as int) * (MICRO_ONE as int)
                    && -(ORBIT_LIM as int) * (MICRO_ONE as int) <= delta_move.1 * pan_sensitivity
                    <= (ORBIT_LIM as int) * (MICRO_ONE as int)) by (nonlinear_arith)
                    requires
                        -ORBIT_LIM <= delta_move.0 <= ORBIT_LIM,
                        -ORBIT_LIM <= delta_move.1 <= ORBIT_LIM,
                        0 <= pan_sensitivity <= MICRO_ONE,
                ;
                lemma_mul_micro_bound(
                    (-delta_move.0) as int,
                    pan_sensitivity as int,
                    ORBIT_LIM as int,
                );
                lemma_mul_micro_bound(delta_move.1 as int, pan_sensitivity as int, ORBIT_LIM as int);
            }
            let k_right = mul_micro(-delta_move.0, pan_sensitivity);
            let k_up = mul_micro(delta_move.1, pan_sensitivity);
            proof {
                assert(-0x80_0000_0000 <= self.radius <= 0x80_0000_0000);
                assert(-0x10_0000_0000_0000 * (MICRO_ONE as int) <= k_right * self.radius
                    <= 0x10_0000_0000_0000 * (MICRO_ONE as int) && -0x10_0000_0000_0000 * (
                MICRO_ONE as int) <= k_up * self.radius <= 0x10_0000_0000_0000 * (
                MICRO_ONE as int)) by (nonlinear_arith)
                    requires
                        -ORBIT_LIM <= k_right <= ORBIT_LIM,
                        -ORBIT_LIM <= k_up <= ORBIT_LIM,
                        -0x80_0000_0000 <= self.radius <= 0x80_0000_0000,
                ;
                lemma_mul_micro_bound(k_right as int, self.radius as int, 0x10_0000_0000_0000);
                lemma_mul_micro_bound(k_up as int, self.radius as int, 0x10_0000_0000_0000);
            }
            let k_right_r = mul_micro(k_right, self.radius);
            let k_up_r = mul_micro(k_up, self.radius);
            proof {
                lemma_axis_products(right.0 as int, up.0 as int, k_right_r as int, k_up_r as int);
                lemma_axis_products(right.1 as int, up.1 as int, k_right_r as int, k_up_r as int);
                lemma_axis_products(right.2 as int, up.2 as int, k_right_r as int, k_up_r as int);
            }
            self.center = (
                initial_state.center.0 + mul_micro(right.0, k_right_r) + mul_micro(up.0, k_up_r),
                initial_state.center.1 + mul_micro(right.1, k_right_r) + mul_micro(up.1, k_up_r),
                initial_state.center.2 + mul_micro(right.2, k_right_r) + mul_micro(up.2, k_up_r),
            );
        }

        // The caller recomputes the camera transform from the state whenever
        // anything changed, or on the first update after activation.
        let recompute = any || self.is_added;
        if recompute {
            self.is_added = false;
        }

        invalidate.clear();
        recompute
    }
}

/// The centre after a pan: moved along the right axis by the reflected
/// horizontal drag and along the up axis by the vertical drag, each scaled
/// by the pan sensitivity and the current radius.
pub open spec fn pan_center_spec(
    initial_center: (i64, i64, i64),
    delta_move: (i64, i64),
    pan_sensitivity: int,
    radius: int,
    right: (i64, i64, i64),
    up: (i64, i64, i64),
) -> (int, int, int) {
    let k_right = mul_micro_spec(
        mul_micro_spec(-delta_move.0 as int, pan_sensitivity),
        radius,
    );
    let k_up = mul_micro_spec(mul_micro_spec(delta_move.1 as int, pan_sensitivity), radius);
    (
        initial_center.0 + mul_micro_spec(right.0 as int, k_right) + mul_micro_spec(
            up.0 as int,
            k_up,
        ),
        initial_center.1 + mul_micro_spec(right.1 as int, k_right) + mul_micro_spec(
            up.1 as int,
            k_up,
        ),
        initial_center.2 + mul_micro_spec(right.2 as int, k_right) + mul_micro_spec(
            up.2 as int,
            k_up,
        ),
    )
}

/// Bounds of the pan products along one axis component.
proof fn lemma_axis_products(r: int, u: int, k_right_r: int, k_up_r: int)
    requires
        -MICRO_ONE <= r <= MICRO_ONE,
        -MICRO_ONE <= u <= MICRO_ONE,
        -0x10_0000_0000_0000 <= k_right_r <= 0x10_0000_0000_0000,
        -0x10_0000_0000_0000 <= k_up_r <= 0x10_0000_0000_0000,
    ensures
        -0x2000_0000_0000_0000 * (MICRO_ONE as int) <= r * k_right_r <= 0x2000_0000_0000_0000 * (
        MICRO_ONE as int),
        -0x2000_0000_0000_0000 * (MICRO_ONE as int) <= u * k_up_r <= 0x2000_0000_0000_0000 * (
        MICRO_ONE as int),
        -0x40_0000_0000_0000 <= mul_micro_spec(r, k_right_r) <= 0x40_0000_0000_0000,
        -0x40_0000_0000_0000 <= mul_micro_spec(u, k_up_r) <= 0x40_0000_0000_0000,
{
    assert(-0x40_0000_0000_0000 * (MICRO_ONE as int) <= r * k_right_r <= 0x40_0000_0000_0000 * (
    MICRO_ONE as int) && -0x40_0000_0000_0000 * (MICRO_ONE as int) <= u * k_up_r
        <= 0x40_0000_0000_0000 * (MICRO_ONE as int)) by (nonlinear_arith)
        requires
            -MICRO_ONE <= r <= MICRO_ONE,
            -MICRO_ONE <= u <= MICRO_ONE,
            -0x10_0000_0000_0000 <= k_right_r <= 0x10_0000_0000_0000,
            -0x10_0000_0000_0000 <= k_up_r <= 0x10_0000_0000_0000,
    ;
    lemma_mul_micro_bound(r, k_right_r, 0x40_0000_0000_0000);
    lemma_mul_micro_bound(u, k_up_r, 0x40_0000_0000_0000);
}

} // verus!
