//! The version 3 image information document's size and profile logic.

use tile_pyramid::iiif::image::IiifImageFormat;
use tile_pyramid::iiif::image_v3::{
    IiifImageInfo, IiifImageInfoType, IiifProfileDetails, IiifTileInfo, ImageInfo,
};
use tile_pyramid::rendering::tiled_image::Size;

fn bare(width: u32, height: u32) -> IiifImageInfo {
    IiifImageInfo {
        type_: IiifImageInfoType::ImageService3,
        width,
        height,
        sizes: None,
        tiles: None,
        profile: "level0".to_string(),
        extra_formats: None,
        extra_qualities: None,
        extra_features: None,
    }
}

#[test]
fn image_v3_test_get_tile_size() {
    let image_info = ImageInfo { iiif_image_info: bare(0, 0), expanded_profiles: Vec::new() };
    assert_eq!(image_info.get_tile_size(), Size::new(512, 512));

    let mut info = bare(0, 0);
    info.tiles = Some(vec![IiifTileInfo {
        width: 100,
        height: Some(110),
        scale_factors: Vec::new(),
    }]);
    let image_info = ImageInfo { iiif_image_info: info, expanded_profiles: Vec::new() };
    assert_eq!(image_info.get_tile_size(), Size::new(100, 110));

    let mut info = bare(0, 0);
    info.tiles = Some(vec![IiifTileInfo {
        width: 100,
        height: None,
        scale_factors: Vec::new(),
    }]);
    let image_info = ImageInfo { iiif_image_info: info, expanded_profiles: Vec::new() };
    assert_eq!(image_info.get_tile_size(), Size::new(100, 100));
}

#[test]
fn image_v3_test_get_optional_sizes() {
    let image_info = ImageInfo { iiif_image_info: bare(20, 10), expanded_profiles: Vec::new() };
    assert_eq!(image_info.get_optional_sizes(), vec![Size::new(20, 10)]);

    let mut info = bare(20, 10);
    info.sizes = Some(vec![
        Size::new(440, 361),
        Size::new(220, 180),
        Size::new(880, 723),
    ]);
    let image_info = ImageInfo { iiif_image_info: info, expanded_profiles: Vec::new() };
    assert_eq!(
        image_info.get_optional_sizes(),
        vec![
            Size::new(20, 10),
            Size::new(220, 180),
            Size::new(440, 361),
            Size::new(880, 723),
        ]
    );
}

#[test]
fn image_v3_test_get_profile_details() {
    let image_info = ImageInfo {
        iiif_image_info: bare(20, 10),
        expanded_profiles: vec![IiifProfileDetails {
            formats: vec![IiifImageFormat::Png],
            qualities: Vec::new(),
            supports: Vec::new(),
        }],
    };

    assert_eq!(
        image_info.get_profile_details()[0].get_formats(),
        vec![IiifImageFormat::Png]
    );
}

#[test]
fn image_v3_test_get_tile_scaling_sizes() {
    let mut info = bare(10, 10);
    info.tiles = Some(vec![IiifTileInfo {
        width: 100,
        height: None,
        scale_factors: Vec::new(),
    }]);
    let image_info = ImageInfo { iiif_image_info: info, expanded_profiles: Vec::new() };
    assert_eq!(image_info.get_tile_scaling_sizes(), vec![Size::new(10, 10)]);
}

#[test]
fn image_v3_try_from_expands_the_level_and_the_extras() {
    let mut info = bare(100, 50);
    info.profile = "level2".to_string();
    info.extra_formats = Some(vec![IiifImageFormat::Webp]);
    let expanded = ImageInfo::try_from(info).unwrap();

    assert_eq!(expanded.expanded_profiles.len(), 2);
    assert_eq!(
        expanded.expanded_profiles[0].formats,
        vec![IiifImageFormat::Jpg, IiifImageFormat::Png]
    );
    assert_eq!(expanded.expanded_profiles[1].formats, vec![IiifImageFormat::Webp]);
    assert_eq!(expanded.expanded_profiles[1].qualities, Vec::new());
}

#[test]
fn image_v3_try_from_rejects_an_unknown_profile() {
    let mut info = bare(100, 50);
    info.profile = "level9".to_string();
    match ImageInfo::try_from(info) {
        Err(tile_pyramid::iiif::IiifError::IiifFormatError(msg)) => {
            assert_eq!(msg, "unexpected profile 'level9'");
        }
        _ => panic!("an unknown profile token must be rejected"),
    }
}
