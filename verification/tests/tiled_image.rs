//! The pyramid descriptor: transforms, level selection, required tiles and
//! request URLs, on the reference pyramid.

use tile_pyramid::frac::{Frac, FracPoint, FracRect};
use tile_pyramid::iiif::image::{IiifFeature, IiifImageFormat};
use tile_pyramid::rendering::tile::{TileIndex, TileRange};
use tile_pyramid::rendering::tiled_image::{Size, TiledImage};

const TILE_SIZE: u32 = 1024;

fn setup() -> TiledImage {
    TiledImage::new(
        "https://iiif_end_point/uuid".to_string(),
        Size::new(TILE_SIZE, TILE_SIZE),
        vec![
            Size::new(678, 478),
            Size::new(1357, 955),
            Size::new(2713, 1910),
        ],
        IiifImageFormat::Png,
        vec![IiifFeature::SizeByWhListed],
        vec![
            Size::new(678, 478),
            Size::new(1357, 955),
            Size::new(2713, 1910),
        ],
    )
}

fn frac(num: i64, den: i64) -> Frac {
    Frac { num, den }
}

fn rect(min_x: Frac, min_y: Frac, max_x: Frac, max_y: Frac) -> FracRect {
    FracRect {
        min: FracPoint { x: min_x, y: min_y },
        max: FracPoint { x: max_x, y: max_y },
    }
}

#[test]
fn test_get_image_url() {
    let image = setup();

    assert_eq!(
        image.get_image_url(1, 2, 3, 4, Size::new(1, 2)),
        "https://iiif_end_point/uuid/1,2,3,4/1,2/0/default.png"
    );
}

#[test]
fn test_get_max_size() {
    let image = setup();

    assert_eq!(image.get_max_size(), Size::new(2713, 1910));
}

#[test]
fn test_world_to_image_scale() {
    let image = setup();

    assert_eq!(image.world_to_image_scale(0), frac(2713, 678));
    assert_eq!(image.world_to_image_scale(1), frac(2713, 1357));
    assert_eq!(image.world_to_image_scale(2), frac(2713, 2713));
}

#[test]
fn test_tile_to_image() {
    let image = setup();
    let p = (1u32, 2u32);
    let t = TILE_SIZE as i64;

    assert_eq!(
        image.tile_to_image(0, p),
        FracPoint { x: frac(1 * t * 2713, 678), y: frac(2 * t * 2713, 678) }
    );
    assert_eq!(
        image.tile_to_image(1, p),
        FracPoint { x: frac(1 * t * 2713, 1357), y: frac(2 * t * 2713, 1357) }
    );
    assert_eq!(
        image.tile_to_image(2, p),
        FracPoint { x: frac(1 * t * 2713, 2713), y: frac(2 * t * 2713, 2713) }
    );
}

#[test]
fn test_image_to_tile() {
    let image = setup();
    let p = (10i64, 20i64);
    let t = TILE_SIZE as i64;

    assert_eq!(
        image.image_to_tile(0, p),
        FracPoint { x: frac(10 * 678, t * 2713), y: frac(20 * 678, t * 2713) }
    );
    assert_eq!(
        image.image_to_tile(1, p),
        FracPoint { x: frac(10 * 1357, t * 2713), y: frac(20 * 1357, t * 2713) }
    );
    assert_eq!(
        image.image_to_tile(2, p),
        FracPoint { x: frac(10 * 2713, t * 2713), y: frac(20 * 2713, t * 2713) }
    );
}

#[test]
fn test_get_level_at() {
    let image = setup();

    assert_eq!(image.get_level_at(frac(1, 1)), 2);
    assert_eq!(image.get_level_at(frac(2, 1)), 1);
    assert_eq!(image.get_level_at(frac(4, 1)), 0);
}

#[test]
fn test_world_to_image() {
    let image = setup();

    assert_eq!(image.world_to_image((1, 2)), (1, -2));
}

#[test]
fn test_image_to_world() {
    let image = setup();

    assert_eq!(image.image_to_world((1, 2)), (1, -2));
}

#[test]
fn test_get_image_tile_at() {
    let image = setup();
    // Corners (10.3, 20.5) and (200.5, 300.1), as exact fractions.
    let position = rect(frac(103, 10), frac(41, 2), frac(401, 2), frac(3001, 10));

    assert_eq!(
        image.get_image_tile_url_at(position),
        "https://iiif_end_point/uuid/10,21,191,279/1024,1024/0/default.png"
    );
    assert_eq!(
        image.get_image_tile_url_at(position),
        "https://iiif_end_point/uuid/10,21,191,279/1024,1024/0/default.png"
    );
    assert_eq!(
        image.get_image_tile_url_at(position),
        "https://iiif_end_point/uuid/10,21,191,279/1024,1024/0/default.png"
    );
}

#[test]
fn test_get_required_tiles() {
    let image = setup();
    let t = TILE_SIZE as i64;

    let (tiles, tile_range_x, tile_range_y) =
        image.get_required_tiles(0, (-8000, -8000), (8000, 8000));

    assert_eq!(tiles.len(), 1);
    assert_eq!(tiles[0].index, TileIndex::new(0, 0, 0));
    assert_eq!(
        tiles[0].image_position,
        rect(
            frac(0, 678),
            frac(0, 678),
            frac(2713 * 678, 678),
            frac(1910 * 678, 678)
        )
    );
    assert_eq!(
        tiles[0].world_position,
        rect(
            frac(0, 678),
            frac(-1910 * 678, 678),
            frac(2713 * 678, 678),
            frac(0, 678)
        )
    );
    assert_eq!(tile_range_x, TileRange::new(0, 0));
    assert_eq!(tile_range_y, TileRange::new(0, 0));

    let (tiles, tile_range_x, tile_range_y) =
        image.get_required_tiles(1, (-4000, -4000), (4000, 4000));

    assert_eq!(tiles.len(), 2);
    assert_eq!(tiles[0].index, TileIndex::new(0, 0, 1));
    assert_eq!(tiles[1].index, TileIndex::new(1, 0, 1));
    assert_eq!(tile_range_x, TileRange::new(0, 1));
    assert_eq!(tile_range_y, TileRange::new(0, 0));
    assert_eq!(
        tiles[0].image_position,
        rect(
            frac(0, 1357),
            frac(0, 1357),
            frac(t * 2713, 1357),
            frac(1910 * 1357, 1357)
        )
    );
    assert_eq!(
        tiles[1].image_position,
        rect(
            frac(t * 2713, 1357),
            frac(0, 1357),
            frac(2713 * 1357, 1357),
            frac(1910 * 1357, 1357)
        )
    );
    assert_eq!(
        tiles[0].world_position,
        rect(
            frac(0, 1357),
            frac(-1910 * 1357, 1357),
            frac(t * 2713, 1357),
            frac(0, 1357)
        )
    );
    assert_eq!(
        tiles[1].world_position,
        rect(
            frac(t * 2713, 1357),
            frac(-1910 * 1357, 1357),
            frac(2713 * 1357, 1357),
            frac(0, 1357)
        )
    );

    let (tiles, tile_range_x, tile_range_y) =
        image.get_required_tiles(2, (-2000, -2000), (2000, 2000));

    assert_eq!(tiles.len(), 4);
    assert_eq!(tiles[0].index, TileIndex::new(0, 0, 2));
    assert_eq!(tiles[1].index, TileIndex::new(1, 0, 2));
    assert_eq!(tiles[2].index, TileIndex::new(0, 1, 2));
    assert_eq!(tiles[3].index, TileIndex::new(1, 1, 2));
    assert_eq!(tile_range_x, TileRange::new(0, 1));
    assert_eq!(tile_range_y, TileRange::new(0, 1));

    assert_eq!(
        tiles[0].image_position,
        rect(
            frac(0, 2713),
            frac(0, 2713),
            frac(t * 2713, 2713),
            frac(t * 2713, 2713)
        )
    );
    assert_eq!(
        tiles[1].image_position,
        rect(
            frac(t * 2713, 2713),
            frac(0, 2713),
            frac(2 * t * 2713, 2713),
            frac(t * 2713, 2713)
        )
    );
    assert_eq!(
        tiles[2].image_position,
        rect(
            frac(0, 2713),
            frac(t * 2713, 2713),
            frac(t * 2713, 2713),
            frac(1910 * 2713, 2713)
        )
    );
    assert_eq!(
        tiles[3].image_position,
        rect(
            frac(t * 2713, 2713),
            frac(t * 2713, 2713),
            frac(2 * t * 2713, 2713),
            frac(1910 * 2713, 2713)
        )
    );
    assert_eq!(
        tiles[0].world_position,
        rect(
            frac(0, 2713),
            frac(-t * 2713, 2713),
            frac(t * 2713, 2713),
            frac(0, 2713)
        )
    );
    assert_eq!(
        tiles[1].world_position,
        rect(
            frac(t * 2713, 2713),
            frac(-t * 2713, 2713),
            frac(2 * t * 2713, 2713),
            frac(0, 2713)
        )
    );
    assert_eq!(
        tiles[2].world_position,
        rect(
            frac(0, 2713),
            frac(-1910 * 2713, 2713),
            frac(t * 2713, 2713),
            frac(-t * 2713, 2713)
        )
    );
    assert_eq!(
        tiles[3].world_position,
        rect(
            frac(t * 2713, 2713),
            frac(-1910 * 2713, 2713),
            frac(2 * t * 2713, 2713),
            frac(-t * 2713, 2713)
        )
    );
}

#[test]
fn test_get_world_max_size_rect() {
    let image = setup();

    assert_eq!(
        image.get_world_max_size_rect(),
        rect(frac(0, 1), frac(-1910, 1), frac(2713, 1), frac(0, 1))
    );
}

#[test]
fn test_get_image_thumbail() {
    let mut image = setup();

    let (url, size) = image.get_image_thumbnail(256);

    assert_eq!(url, "https://iiif_end_point/uuid/full/678,478/0/default.png");
    assert_eq!(size, Size::new(678, 478));

    image.supported_features.push(IiifFeature::SizeByWh);
    let (url, size) = image.get_image_thumbnail(256);

    assert_eq!(url, "https://iiif_end_point/uuid/full/256,180/0/default.png");
    assert_eq!(size, Size::new(256, 180));
}

#[test]
fn test_get_image_max_size_rect() {
    let image = setup();

    let r = image.get_image_max_size_rect();

    assert_eq!(r, rect(frac(0, 1), frac(0, 1), frac(2713, 1), frac(1910, 1)));
}

#[test]
fn test_get_image_info_url() {
    assert_eq!(
        TiledImage::get_image_info_url("https://example.com/uuid"),
        "https://example.com/uuid/info.json"
    );
}

#[test]
fn test_single_level_pyramid_always_selects_level_zero() {
    let image = TiledImage::new(
        "https://iiif_end_point/uuid".to_string(),
        Size::new(512, 512),
        vec![Size::new(800, 600)],
        IiifImageFormat::Jpg,
        vec![],
        vec![Size::new(800, 600)],
    );

    assert_eq!(image.get_level_at(frac(1, 1)), 0);
    assert_eq!(image.get_level_at(frac(100, 1)), 0);
    assert_eq!(image.get_level_at(frac(1, 100)), 0);
}

#[test]
fn test_initial_view_fits_the_image_to_the_viewport() {
    let image = setup();

    let (zoom, level, translation) = image.initial_camera_view((1024, 768));

    // The width ratio 2713/1024 exceeds the height ratio 1910/768, so it is
    // the fit-to-screen scale; 1024 needed pixels select the middle level.
    assert_eq!(zoom, frac(2713, 1024));
    assert_eq!(level, 1);
    assert_eq!(translation, (2713 * 500_000, -1910 * 500_000));
}

#[test]
fn test_full_region_takes_the_literal_token() {
    let image = setup();

    assert_eq!(
        image.get_image_url(0, 0, 2713, 1910, Size::new(100, 70)),
        "https://iiif_end_point/uuid/full/100,70/0/default.png"
    );
}
