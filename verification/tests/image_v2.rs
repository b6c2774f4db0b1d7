//! The version 2 image information document's size and profile logic.

use tile_pyramid::iiif::image::{IiifImageFormat, IiifImageQuality};
use tile_pyramid::iiif::image_v2::{
    IiifImageInfo, IiifProfileDetails, IiifProfileInfo, IiifTileInfo, ImageInfo,
};
use tile_pyramid::iiif::one_or_many::OneOrMany;
use tile_pyramid::iiif::IiifError;
use tile_pyramid::rendering::tiled_image::Size;

fn one_profile() -> OneOrMany<IiifProfileInfo, IiifProfileInfo> {
    OneOrMany::Many(vec![IiifProfileInfo::ProfileDetails(IiifProfileDetails {
        formats: Some(vec![IiifImageFormat::Jpg]),
        qualities: Some(Vec::new()),
        supports: Some(Vec::new()),
    })])
}

#[test]
fn image_v2_test_get_tile_size() {
    let image_info = ImageInfo {
        iiif_image_info: IiifImageInfo {
            height: 0,
            width: 0,
            profile: one_profile(),
            tiles: None,
            sizes: None,
        },
        expanded_profiles: Vec::new(),
    };
    assert_eq!(image_info.get_tile_size(), Size::new(512, 512));

    let image_info = ImageInfo {
        iiif_image_info: IiifImageInfo {
            height: 0,
            width: 0,
            profile: one_profile(),
            tiles: Some(vec![IiifTileInfo {
                width: 100,
                height: Some(110),
                scale_factors: Vec::new(),
            }]),
            sizes: None,
        },
        expanded_profiles: Vec::new(),
    };
    assert_eq!(image_info.get_tile_size(), Size::new(100, 110));

    let image_info = ImageInfo {
        iiif_image_info: IiifImageInfo {
            height: 0,
            width: 0,
            profile: one_profile(),
            tiles: Some(vec![IiifTileInfo {
                width: 100,
                height: None,
                scale_factors: Vec::new(),
            }]),
            sizes: None,
        },
        expanded_profiles: Vec::new(),
    };
    assert_eq!(image_info.get_tile_size(), Size::new(100, 100));
}

#[test]
fn image_v2_test_get_optional_sizes() {
    let image_info = ImageInfo {
        iiif_image_info: IiifImageInfo {
            height: 10,
            width: 20,
            profile: one_profile(),
            tiles: None,
            sizes: None,
        },
        expanded_profiles: Vec::new(),
    };
    assert_eq!(image_info.get_optional_sizes(), vec![Size::new(20, 10)]);

    let image_info = ImageInfo {
        iiif_image_info: IiifImageInfo {
            height: 10,
            width: 20,
            profile: one_profile(),
            tiles: None,
            sizes: Some(vec![
                Size::new(440, 361),
                Size::new(220, 180),
                Size::new(880, 723),
            ]),
        },
        expanded_profiles: Vec::new(),
    };
    assert_eq!(
        image_info.get_optional_sizes(),
        vec![
            Size::new(20, 10),
            Size::new(220, 180),
            Size::new(440, 361),
            Size::new(880, 723),
        ]
    );
}

#[test]
fn image_v2_test_get_profile_details() {
    let image_info = ImageInfo {
        iiif_image_info: IiifImageInfo {
            height: 10,
            width: 20,
            profile: OneOrMany::Many(vec![IiifProfileInfo::ProfileDetails(
                IiifProfileDetails {
                    formats: Some(vec![IiifImageFormat::Png]),
                    qualities: Some(Vec::new()),
                    supports: Some(Vec::new()),
                },
            )]),
            tiles: None,
            sizes: None,
        },
        expanded_profiles: vec![IiifProfileDetails {
            formats: Some(vec![IiifImageFormat::Png]),
            qualities: Some(Vec::new()),
            supports: Some(Vec::new()),
        }],
    };

    assert_eq!(
        image_info.get_profile_details()[0].get_formats(),
        vec![IiifImageFormat::Png]
    );
}

#[test]
fn image_v2_test_get_tile_scaling_sizes() {
    let image_info = ImageInfo {
        iiif_image_info: IiifImageInfo {
            height: 10,
            width: 10,
            profile: one_profile(),
            tiles: Some(vec![IiifTileInfo {
                width: 100,
                height: None,
                scale_factors: Vec::new(),
            }]),
            sizes: None,
        },
        expanded_profiles: Vec::new(),
    };
    assert_eq!(image_info.get_tile_scaling_sizes(), vec![Size::new(10, 10)]);
}

#[test]
fn image_v2_from_url_expands_a_level() {
    let details = IiifProfileDetails::from_url("http://iiif.io/api/image/2/level0.json").unwrap();
    assert_eq!(details.formats, Some(vec![IiifImageFormat::Jpg]));
    assert_eq!(details.qualities, Some(vec![IiifImageQuality::Default]));
    assert_eq!(
        details.supports,
        Some(vec![tile_pyramid::iiif::image::IiifFeature::SizeByWhListed])
    );
}

#[test]
fn image_v2_from_url_rejects_an_unknown_url() {
    let r = IiifProfileDetails::from_url("http://example.org/profile");
    match r {
        Err(IiifError::IiifFormatError(msg)) => {
            assert_eq!(msg, "unexpected profile url http://example.org/profile");
        }
        _ => panic!("an unknown profile URL must be rejected"),
    }
}

#[test]
fn image_v2_try_from_rejects_an_empty_profile_list() {
    let info = IiifImageInfo {
        height: 10,
        width: 20,
        profile: OneOrMany::Many(Vec::new()),
        tiles: None,
        sizes: None,
    };
    match ImageInfo::try_from(info) {
        Err(IiifError::IiifMissingInfo(msg)) => assert_eq!(msg, "Missing profile"),
        _ => panic!("a document without profiles must be rejected"),
    }
}
