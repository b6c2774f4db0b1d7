pub mod model_image;
pub mod tile;
pub mod tiled_image;
