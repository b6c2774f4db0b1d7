pub mod main_camera;
pub mod pan_orbit_state_3d;
pub mod pan_zoom_state_2d;
