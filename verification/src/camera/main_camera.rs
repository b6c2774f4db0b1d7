//! Camera gesture modes, invalidation signals, and the translation bound
//! that keeps the image at least partially inside the viewport.

use vstd::prelude::*;

verus! {

/// The gesture modes a camera update can combine: a closed set of flags with
/// explicit combination rules. Pan and zoom can coexist; orbit excludes both
/// by device convention, which the input drivers enforce by construction.
#[derive(Debug, Clone, Copy, PartialEq, Eq, Structural)]
pub struct CameraMode {
    pub pan: bool,
    pub zoom: bool,
    pub orbit: bool,
}

impl CameraMode {
    pub fn pan() -> (r: CameraMode)
        ensures
            r == (CameraMode { pan: true, zoom: false, orbit: false }),
    {
        CameraMode { pan: true, zoom: false, orbit: false }
    }

    pub fn zoom() -> (r: CameraMode)
        ensures
            r == (CameraMode { pan: false, zoom: true, orbit: false }),
    {
        CameraMode { pan: false, zoom: true, orbit: false }
    }

    pub fn orbit() -> (r: CameraMode)
        ensures
            r == (CameraMode { pan: false, zoom: false, orbit: true }),
    {
        CameraMode { pan: false, zoom: false, orbit: true }
    }

    /// Pan and zoom together, as a two-finger gesture produces.
    pub fn pan_zoom() -> (r: CameraMode)
        ensures
            r == (CameraMode { pan: true, zoom: true, orbit: false }),
    {
        CameraMode { pan: true, zoom: true, orbit: false }
    }
}

/// The invalidation signals a gesture update raises: the required tiles must
/// be recomputed after a translation, and after a zoom (the latter
/// debounced).
#[derive(Debug, Clone, Copy, PartialEq, Eq, Structural)]
pub struct Invalidate {
    pub translate: bool,
    pub zoom: bool,
}

impl Invalidate {
    pub fn empty() -> (r: Invalidate)
        ensures
            r == (Invalidate { translate: false, zoom: false }),
    {
        Invalidate { translate: false, zoom: false }
    }

    pub fn is_empty(&self) -> (r: bool)
        ensures
            r == (!self.translate && !self.zoom),
    {
        !self.translate && !self.zoom
    }

    pub fn clear(&mut self)
        ensures
            *final(self) == (Invalidate { translate: false, zoom: false }),
    {
        self.translate = false;
        self.zoom = false;
    }
}

/// One coordinate clamped so the camera's centre stays between the image
/// edge (widened by the margin) and the viewport half-extent.
pub open spec fn bound_coord_spec(t: int, lo: int, hi: int, half: int, margin: int) -> int {
    vstd::math::min(vstd::math::max(t, lo + margin - half), hi - margin + half)
}

/// Clamp the camera's world translation so the image, expanded by a small
/// margin, always remains at least partially within the viewport. All values
/// are world coordinates in micro units; `image_min`/`image_max` bound the
/// image, `viewport_half` is half the viewport's extent, and `margin` is the
/// fixed on-screen distance converted to world units.
pub fn bound_translation(
    translation: (i64, i64),
    image_min: (i64, i64),
    image_max: (i64, i64),
    viewport_half: (i64, i64),
    margin: i64,
) -> (r: (i64, i64))
    requires
        -0x1000_0000_0000_0000 <= translation.0 <= 0x1000_0000_0000_0000,
        -0x1000_0000_0000_0000 <= translation.1 <= 0x1000_0000_0000_0000,
        -0x1000_0000_0000_0000 <= image_min.0 <= 0x1000_0000_0000_0000,
        -0x1000_0000_0000_0000 <= image_min.1 <= 0x1000_0000_0000_0000,
        -0x1000_0000_0000_0000 <= image_max.0 <= 0x1000_0000_0000_0000,
        -0x1000_0000_0000_0000 <= image_max.1 <= 0x1000_0000_0000_0000,
        -0x1000_0000_0000_0000 <= viewport_half.0 <= 0x1000_0000_0000_0000,
        -0x1000_0000_0000_0000 <= viewport_half.1 <= 0x1000_0000_0000_0000,
        -0x1000_0000_0000_0000 <= margin <= 0x1000_0000_0000_0000,
    ensures
        r.0 == bound_coord_spec(
            translation.0 as int,
            image_min.0 as int,
            image_max.0 as int,
            viewport_half.0 as int,
            margin as int,
        ),
        r.1 == bound_coord_spec(
            translation.1 as int,
            image_min.1 as int,
            image_max.1 as int,
            viewport_half.1 as int,
            margin as int,
        ),
{
    (
        bound_coord(translation.0, image_min.0, image_max.0, viewport_half.0, margin),
        bound_coord(translation.1, image_min.1, image_max.1, viewport_half.1, margin),
    )
}

fn bound_coord(t: i64, lo: i64, hi: i64, half: i64, margin: i64) -> (r: i64)
    requires
        -0x1000_0000_0000_0000 <= t <= 0x1000_0000_0000_0000,
        -0x1000_0000_0000_0000 <= lo <= 0x1000_0000_0000_0000,
        -0x1000_0000_0000_0000 <= hi <= 0x1000_0000_0000_0000,
        -0x1000_0000_0000_0000 <= half <= 0x1000_0000_0000_0000,
        -0x1000_0000_0000_0000 <= margin <= 0x1000_0000_0000_0000,
    ensures
        r == bound_coord_spec(t as int, lo as int, hi as int, half as int, margin as int),
{
    let floor = lo + margin - half;
    let ceil = hi - margin + half;
    let raised = if t >= floor {
        t
    } else {
        floor
    };
    if raised <= ceil {
        raised
    } else {
        ceil
    }
}

} // verus!
