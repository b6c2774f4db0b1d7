//! The application's configuration, passed explicitly into the geometry and
//! cache functions. Scalars are micro units (see `crate::micro`).

use vstd::prelude::*;
use vstd::string::StringExecFns;

verus! {

/// Sensitivities of the orbital camera, in micro units: world units per
/// pixel of motion for panning, micro radians per pixel for orbiting.
#[derive(Debug, Clone, Copy, PartialEq)]
pub struct PanOrbitSettings {
    pub pan_sensitivity: i64,
    pub orbit_sensitivity: i64,
}

impl Default for PanOrbitSettings {
    /// 0.002 world units per pixel; half a degree per pixel.
    fn default() -> (r: PanOrbitSettings)
        ensures
            r == (PanOrbitSettings { pan_sensitivity: 2000int as i64, orbit_sensitivity: 8727int as i64 }),
    {
        PanOrbitSettings { pan_sensitivity: 2000, orbit_sensitivity: 8727 }
    }
}

/// The application settings the engine consumes.
#[derive(Debug, PartialEq)]
pub struct AppSettings {
    /// Largest number of entries the tile cache should keep.
    pub max_cache_items: usize,
    /// Thumbnail extent in the side panel, micro pixels.
    pub thumbnail_size: i64,
    /// Smallest camera zoom scale allowed (the largest magnification).
    pub min_camera_zoom_scale: i64,
    /// Smallest on-screen image extent allowed when zooming out, micro pixels.
    pub min_image_size: i64,
    /// The user's language preference.
    pub language: String,
    /// Orbital camera sensitivities.
    pub pan_orbit_settings: PanOrbitSettings,
}

impl AppSettings {
    pub fn new(
        max_cache_items: usize,
        thumbnail_size: i64,
        min_camera_zoom_scale: i64,
        min_image_size: i64,
        language: String,
        pan_orbit_settings: PanOrbitSettings,
    ) -> (r: AppSettings)
        ensures
            r == (AppSettings {
                max_cache_items,
                thumbnail_size,
                min_camera_zoom_scale,
                min_image_size,
                language,
                pan_orbit_settings,
            }),
    {
        AppSettings {
            max_cache_items,
            thumbnail_size,
            min_camera_zoom_scale,
            min_image_size,
            language,
            pan_orbit_settings,
        }
    }
}

impl Default for AppSettings {
    /// 4096 cached tiles, 64-pixel thumbnails, at most fourfold
    /// magnification, at least 256 on-screen pixels of image, English.
    fn default() -> (r: AppSettings)
        ensures
            r.max_cache_items == 4096,
            r.thumbnail_size == 64_000_000,
            r.min_camera_zoom_scale == 250_000,
            r.min_image_size == 256_000_000,
            r.language@ == "en"@,
            r.pan_orbit_settings == (PanOrbitSettings {
                pan_sensitivity: 2000int as i64,
                orbit_sensitivity: 8727int as i64,
            }),
    {
        AppSettings {
            max_cache_items: 4096,
            thumbnail_size: 64_000_000,
            min_camera_zoom_scale: 250_000,
            min_image_size: 256_000_000,
            language: String::from_str(crate::iiif::manifest::EN),
            pan_orbit_settings: PanOrbitSettings::default(),
        }
    }
}

} // verus!
