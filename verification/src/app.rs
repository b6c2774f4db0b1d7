pub mod app_settings;
pub mod app_state;
