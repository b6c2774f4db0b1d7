//! The camera gesture state machines, in micro units.

use tile_pyramid::camera::main_camera::{bound_translation, CameraMode, Invalidate};
use tile_pyramid::camera::pan_orbit_state_3d::PanOrbitState3d;
use tile_pyramid::camera::pan_zoom_state_2d::PanZoomState2d;
use tile_pyramid::micro::{MICRO_ONE, PI_MICRO};

#[test]
fn pan_updates_translation_and_raises_translate() {
    let mut state = PanZoomState2d::new((0, 0), MICRO_ONE);
    let initial = state;
    let mut level = 0usize;
    let mut invalidate = Invalidate::empty();

    state.apply(
        CameraMode::pan(),
        &initial,
        (0, 0),
        (0, 0),
        MICRO_ONE,
        (10 * MICRO_ONE, 4 * MICRO_ONE),
        250_000,
        (2713 * MICRO_ONE, 1910 * MICRO_ONE),
        256 * MICRO_ONE,
        None,
        &mut level,
        &mut invalidate,
    );

    // The pan delta is scaled by the unchanged scale; the vertical axis
    // reflects.
    assert_eq!(state.scale, MICRO_ONE);
    assert_eq!(state.translation, (-10 * MICRO_ONE, 4 * MICRO_ONE));
    assert!(invalidate.translate);
    assert!(!invalidate.zoom);
}

#[test]
fn zoom_is_clamped_and_keeps_the_cursor_point_still() {
    let mut state = PanZoomState2d::new((0, 0), MICRO_ONE);
    let initial = state;
    let mut level = 0usize;
    let mut invalidate = Invalidate::empty();

    // Zooming out far beyond the largest allowed scale clamps to it:
    // max scale = 2713 / 256 of a unit.
    state.apply(
        CameraMode::zoom(),
        &initial,
        (100 * MICRO_ONE, 0),
        (0, 0),
        100 * MICRO_ONE,
        (0, 0),
        250_000,
        (2713 * MICRO_ONE, 1910 * MICRO_ONE),
        256 * MICRO_ONE,
        None,
        &mut level,
        &mut invalidate,
    );

    let max_scale = (2713i64 * MICRO_ONE as i64 * MICRO_ONE as i64) / (256 * MICRO_ONE as i64);
    assert_eq!(state.scale, max_scale);
    // The point under the cursor stays put: the translation absorbs the
    // scale change at the cursor's offset from the centre.
    let ds = MICRO_ONE - max_scale;
    assert_eq!(state.translation.0, (100i64 * MICRO_ONE as i64 * ds) / MICRO_ONE as i64);
    assert!(!invalidate.translate);
    assert!(invalidate.zoom);
}

#[test]
fn orbit_wraps_the_angles_into_half_a_turn() {
    let mut state = PanOrbitState3d::new((0, 0, 0), MICRO_ONE, 3_000_000, -3_000_000, false);
    let initial = state;
    let mut invalidate = Invalidate::empty();

    // A drag of 200 pixels at 0.002 radians per pixel: 0.4 radians, which
    // pushes pitch past π and yaw below -π.
    let recompute = state.apply(
        CameraMode::orbit(),
        &initial,
        MICRO_ONE,
        (-200_000_000, 200_000_000),
        2_000,
        2_000,
        (MICRO_ONE, 0, 0),
        (0, MICRO_ONE, 0),
        &mut invalidate,
    );

    assert!(recompute);
    // pitch = 3.0 + 0.4 = 3.4 rad wraps to 3.4 - 2π. The initial pitch says
    // the camera is upside down, so the horizontal delta keeps its sign:
    // yaw = -3.0 - 0.4 = -3.4 wraps to -3.4 + 2π.
    assert_eq!(state.pitch, 3_400_000 - 2 * PI_MICRO);
    assert_eq!(state.yaw, -3_400_000 + 2 * PI_MICRO);
    assert!(-PI_MICRO <= state.pitch && state.pitch <= PI_MICRO);
    assert!(-PI_MICRO <= state.yaw && state.yaw <= PI_MICRO);
    assert!(invalidate.is_empty());
}

#[test]
fn an_angle_landing_on_minus_half_a_turn_wraps_up() {
    // Start just above -π; a drag of half a microradian short of nothing
    // lands the pitch exactly on -π, which belongs to the far end of the
    // half-open interval.
    let mut state = PanOrbitState3d::new((0, 0, 0), MICRO_ONE, -PI_MICRO + 1, 0, false);
    let initial = state;
    let mut invalidate = Invalidate::empty();

    state.apply(
        CameraMode::orbit(),
        &initial,
        MICRO_ONE,
        (0, -500),
        2_000,
        2_000,
        (MICRO_ONE, 0, 0),
        (0, MICRO_ONE, 0),
        &mut invalidate,
    );

    assert_eq!(state.pitch, PI_MICRO);
    assert!(-PI_MICRO < state.pitch && state.pitch <= PI_MICRO);
}

#[test]
fn orbit_zoom_scales_the_radius_multiplicatively() {
    let mut state = PanOrbitState3d::new((0, 0, 0), 4 * MICRO_ONE, 0, 0, false);
    let initial = state;
    let mut invalidate = Invalidate::empty();

    let recompute = state.apply(
        CameraMode::zoom(),
        &initial,
        MICRO_ONE / 2,
        (0, 0),
        2_000,
        2_000,
        (MICRO_ONE, 0, 0),
        (0, MICRO_ONE, 0),
        &mut invalidate,
    );

    assert!(recompute);
    assert_eq!(state.radius, 2 * MICRO_ONE);
    assert_eq!(state.center, (0, 0, 0));
}

#[test]
fn orbit_pan_moves_the_center_along_the_camera_axes() {
    let mut state = PanOrbitState3d::new((0, 0, 0), MICRO_ONE, 0, 0, false);
    let initial = state;
    let mut invalidate = Invalidate::empty();

    let recompute = state.apply(
        CameraMode::pan(),
        &initial,
        MICRO_ONE,
        (-100_000_000, 50_000_000),
        2_000,
        2_000,
        (MICRO_ONE, 0, 0),
        (0, MICRO_ONE, 0),
        &mut invalidate,
    );

    assert!(recompute);
    // A 100-pixel drag right and 50 up at 0.002 units per pixel, at radius
    // one: the centre moves (0.2, 0.1, 0) units.
    assert_eq!(state.center, (200_000, 100_000, 0));
}

#[test]
fn an_idle_update_still_recomputes_the_first_frame() {
    let mut state = PanOrbitState3d::new((0, 0, 0), MICRO_ONE, 0, 0, true);
    let initial = state;
    let mut invalidate = Invalidate::empty();

    let recompute = state.apply(
        CameraMode::orbit(),
        &initial,
        MICRO_ONE,
        (0, 0),
        2_000,
        2_000,
        (MICRO_ONE, 0, 0),
        (0, MICRO_ONE, 0),
        &mut invalidate,
    );

    assert!(recompute);
    assert!(!state.is_added);
}

#[test]
fn translation_is_bounded_by_the_image_and_the_margin() {
    // Image spans [0, 1000] x [-500, 0]; viewport half-extent 100; margin 10.
    let r = bound_translation(
        (5000 * MICRO_ONE, 0),
        (0, -500 * MICRO_ONE),
        (1000 * MICRO_ONE, 0),
        (100 * MICRO_ONE, 100 * MICRO_ONE),
        10 * MICRO_ONE,
    );
    assert_eq!(r.0, 1090 * MICRO_ONE);

    let r = bound_translation(
        (-5000 * MICRO_ONE, 0),
        (0, -500 * MICRO_ONE),
        (1000 * MICRO_ONE, 0),
        (100 * MICRO_ONE, 100 * MICRO_ONE),
        10 * MICRO_ONE,
    );
    assert_eq!(r.0, -90 * MICRO_ONE);

    let r = bound_translation(
        (300 * MICRO_ONE, -200 * MICRO_ONE),
        (0, -500 * MICRO_ONE),
        (1000 * MICRO_ONE, 0),
        (100 * MICRO_ONE, 100 * MICRO_ONE),
        10 * MICRO_ONE,
    );
    assert_eq!(r, (300 * MICRO_ONE, -200 * MICRO_ONE));
}
