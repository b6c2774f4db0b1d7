pub mod keyboard;
pub mod mouse;
pub mod touch;
