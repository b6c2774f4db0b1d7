//! The version 3 image information document: size, offered sizes, tiles, a
//! compliance-level token, and the extra formats, qualities and features the
//! service declares beyond its level.

use vstd::prelude::*;
use vstd::string::StringExecFns;

use crate::iiif::image::{IiifFeature, IiifImageFormat, IiifImageQuality};
use crate::iiif::image_v2::{level_formats, level_qualities, level_supports};
use crate::iiif::IiifError;
use crate::rendering::tiled_image::Size;
use crate::text::str_eq;
use crate::util::copy_vec;

pub use crate::iiif::scaling::IiifTileInfo;

use crate::iiif::scaling::{
    optional_sizes_base, optional_sizes_from, scaling_sizes_base, scaling_sizes_from,
    sort_by_area_spec, sorted_by_area, tile_size_spec, tile_size_from,
};

verus! {

/// The document type tag.
#[derive(Debug, Clone, Copy, PartialEq, Eq, Structural)]
pub enum IiifImageInfoType {
    ImageService3,
}

/// The raw version 3 image information document, as parsed.
#[derive(Debug)]
pub struct IiifImageInfo {
    pub type_: IiifImageInfoType,
    pub width: u32,
    pub height: u32,
    pub sizes: Option<Vec<Size>>,
    pub tiles: Option<Vec<IiifTileInfo>>,
    pub profile: String,
    pub extra_formats: Option<Vec<IiifImageFormat>>,
    pub extra_qualities: Option<Vec<IiifImageQuality>>,
    pub extra_features: Option<Vec<IiifFeature>>,
}

/// A profile's details: the formats, qualities and features the image
/// service supports.
#[derive(Debug)]
pub struct IiifProfileDetails {
    pub formats: Vec<IiifImageFormat>,
    pub qualities: Vec<IiifImageQuality>,
    pub supports: Vec<IiifFeature>,
}

/// The compliance level a profile token names, when it names one.
pub open spec fn token_level(t: Seq<char>) -> Option<int> {
    if t == "level0"@ {
        Option::Some(0int)
    } else if t == "level1"@ {
        Option::Some(1int)
    } else if t == "level2"@ {
        Option::Some(2int)
    } else {
        Option::None
    }
}

/// Whether the details are exactly those a compliance level guarantees.
pub open spec fn is_level_details(d: IiifProfileDetails, level: int) -> bool {
    &&& d.formats@ == level_formats(level)
    &&& d.qualities@ == level_qualities(level)
    &&& d.supports@ == level_supports(level)
}

impl Default for IiifProfileDetails {
    /// JPEG at default quality with no declared features.
    fn default() -> (r: IiifProfileDetails)
        ensures
            r.formats@ == seq![IiifImageFormat::Jpg],
            r.qualities@ == seq![IiifImageQuality::Default],
            r.supports@ == Seq::<IiifFeature>::empty(),
    {
        let mut formats: Vec<IiifImageFormat> = Vec::new();
        formats.push(IiifImageFormat::Jpg);
        let mut qualities: Vec<IiifImageQuality> = Vec::new();
        qualities.push(IiifImageQuality::Default);
        proof {
            assert(formats@ =~= seq![IiifImageFormat::Jpg]);
            assert(qualities@ =~= seq![IiifImageQuality::Default]);
        }
        IiifProfileDetails { formats, qualities, supports: Vec::new() }
    }
}

impl IiifProfileDetails {
    /// The details guaranteed by the compliance level this token names; an
    /// error naming the token when it names no known level.
    pub fn try_from(value: &str) -> (r: Result<IiifProfileDetails, IiifError>)
        ensures
            match r {
                Result::Ok(d) => token_level(value@) matches Option::Some(l) && is_level_details(
                    d,
                    l,
                ),
                Result::Err(e) => token_level(value@) is None && (e
                    matches IiifError::IiifFormatError(m) && m@ == "unexpected profile '"@ + value@
                    + "'"@),
            },
    {
        let level: u32 = if str_eq(value, "level0") {
            0
        } else if str_eq(value, "level1") {
            1
        } else if str_eq(value, "level2") {
            2
        } else {
            let mut msg = String::from_str("unexpected profile '");
            msg.append(value);
            msg.append("'");
            proof {
                assert(msg@ =~= "unexpected profile '"@ + value@ + "'"@);
            }
            return Result::Err(IiifError::IiifFormatError(msg));
        };
        Result::Ok(level_details_v3(level))
    }

    /// The features this profile supports.
    pub fn get_supported_features(&self) -> (r: Vec<IiifFeature>)
        ensures
            r@ == self.supports@,
    {
        copy_vec(&self.supports)
    }

    /// The formats this profile supports.
    pub fn get_formats(&self) -> (r: Vec<IiifImageFormat>)
        ensures
            r@ == self.formats@,
    {
        copy_vec(&self.formats)
    }
}

/// The details of one compliance level.
fn level_details_v3(level: u32) -> (r: IiifProfileDetails)
    requires
        level <= 2,
    ensures
        is_level_details(r, level as int),
{
    let mut formats: Vec<IiifImageFormat> = Vec::new();
    formats.push(IiifImageFormat::Jpg);
    let mut qualities: Vec<IiifImageQuality> = Vec::new();
    qualities.push(IiifImageQuality::Default);
    let mut supports: Vec<IiifFeature> = Vec::new();
    supports.push(IiifFeature::SizeByWhListed);
    if level >= 1 {
        supports.push(IiifFeature::BaseUriRedirect);
        supports.push(IiifFeature::Cors);
        supports.push(IiifFeature::JsonldMediaType);
        supports.push(IiifFeature::RegionByPx);
        supports.push(IiifFeature::SizeByH);
        supports.push(IiifFeature::SizeByPct);
        supports.push(IiifFeature::SizeByW);
    }
    if level == 2 {
        formats.push(IiifImageFormat::Png);
        qualities.push(IiifImageQuality::Bitonal);
        supports.push(IiifFeature::RegionByPct);
        supports.push(IiifFeature::RotationBy90s);
        supports.push(IiifFeature::SizeByConfinedWh);
        supports.push(IiifFeature::SizeByDistortedWh);
        supports.push(IiifFeature::SizeByForcedWh);
        supports.push(IiifFeature::SizeByWh);
    }
    proof {
        assert(formats@ =~= level_formats(level as int));
        assert(qualities@ =~= level_qualities(level as int));
        assert(supports@ =~= level_supports(level as int));
    }
    IiifProfileDetails { formats, qualities, supports }
}

/// The version 3 document with its profile expanded: the level's details
/// first, the extra declarations second.
#[derive(Debug)]
pub struct ImageInfo {
    pub iiif_image_info: IiifImageInfo,
    pub expanded_profiles: Vec<IiifProfileDetails>,
}

/// The view of an absent extras list: empty.
pub open spec fn extras_view<T>(v: Option<Vec<T>>) -> Seq<T> {
    match v {
        Option::Some(v) => v@,
        Option::None => Seq::empty(),
    }
}

impl ImageInfo {
    /// Expand the document's profile. Succeeds exactly when the profile
    /// token names a known compliance level; the expansion holds the level's
    /// details and then the document's extra declarations.
    pub fn try_from(iiif_image_info: IiifImageInfo) -> (r: Result<ImageInfo, IiifError>)
        ensures
            match r {
                Result::Ok(im) => {
                    &&& token_level(iiif_image_info.profile@) is Some
                    &&& im.iiif_image_info == iiif_image_info
                    &&& im.expanded_profiles@.len() == 2
                    &&& (token_level(iiif_image_info.profile@) matches Option::Some(l)
                        && is_level_details(im.expanded_profiles@[0], l))
                    &&& im.expanded_profiles@[1].formats@ == extras_view(
                        iiif_image_info.extra_formats,
                    )
                    &&& im.expanded_profiles@[1].qualities@ == extras_view(
                        iiif_image_info.extra_qualities,
                    )
                    &&& im.expanded_profiles@[1].supports@ == extras_view(
                        iiif_image_info.extra_features,
                    )
                },
                Result::Err(e) => token_level(iiif_image_info.profile@) is None && (e
                    matches IiifError::IiifFormatError(m) && m@ == "unexpected profile '"@
                    + iiif_image_info.profile@ + "'"@),
            },
    {
        let level = match IiifProfileDetails::try_from(iiif_image_info.profile.as_str()) {
            Result::Ok(d) => d,
            Result::Err(e) => {
                return Result::Err(e);
            },
        };
        let extras = IiifProfileDetails {
            formats: match &iiif_image_info.extra_formats {
                Option::Some(v) => copy_vec(v),
                Option::None => Vec::new(),
            },
            qualities: match &iiif_image_info.extra_qualities {
                Option::Some(v) => copy_vec(v),
                Option::None => Vec::new(),
            },
            supports: match &iiif_image_info.extra_features {
                Option::Some(v) => copy_vec(v),
                Option::None => Vec::new(),
            },
        };
        let mut expanded_profiles: Vec<IiifProfileDetails> = Vec::new();
        expanded_profiles.push(level);
        expanded_profiles.push(extras);
        Result::Ok(ImageInfo { iiif_image_info, expanded_profiles })
    }

    /// The whole-image sizes offered, sorted ascending by pixel area, the
    /// full size always among them.
    pub fn get_optional_sizes(&self) -> (r: Vec<Size>)
        ensures
            r@ == sort_by_area_spec(
                optional_sizes_base(
                    self.iiif_image_info.width,
                    self.iiif_image_info.height,
                    self.iiif_image_info.sizes,
                ),
            ),
            r@.to_multiset() == optional_sizes_base(
                self.iiif_image_info.width,
                self.iiif_image_info.height,
                self.iiif_image_info.sizes,
            ).to_multiset(),
            sorted_by_area(r@),
            r@.len() == optional_sizes_base(
                self.iiif_image_info.width,
                self.iiif_image_info.height,
                self.iiif_image_info.sizes,
            ).len(),
    {
        optional_sizes_from(
            self.iiif_image_info.width,
            self.iiif_image_info.height,
            &self.iiif_image_info.sizes,
        )
    }

    /// The expanded profile details.
    pub fn get_profile_details(&self) -> (r: &Vec<IiifProfileDetails>)
        ensures
            r == &self.expanded_profiles,
    {
        &self.expanded_profiles
    }

    /// The per-level sizes derived from the tile scale factors, sorted
    /// ascending by pixel area, the full size always among them.
    pub fn get_tile_scaling_sizes(&self) -> (r: Vec<Size>)
        requires
            match self.iiif_image_info.tiles {
                Option::Some(ts) => ts@.len() > 0 ==> forall|i: int|
                    0 <= i < ts@[0].scale_factors@.len() ==> (#[trigger] ts@[0].scale_factors@[i])
                        >= 1,
                Option::None => true,
            },
        ensures
            r@ == sort_by_area_spec(
                scaling_sizes_base(
                    self.iiif_image_info.width,
                    self.iiif_image_info.height,
                    self.iiif_image_info.tiles,
                ),
            ),
            r@.to_multiset() == scaling_sizes_base(
                self.iiif_image_info.width,
                self.iiif_image_info.height,
                self.iiif_image_info.tiles,
            ).to_multiset(),
            sorted_by_area(r@),
            r@.len() == scaling_sizes_base(
                self.iiif_image_info.width,
                self.iiif_image_info.height,
                self.iiif_image_info.tiles,
            ).len(),
    {
        scaling_sizes_from(
            self.iiif_image_info.width,
            self.iiif_image_info.height,
            &self.iiif_image_info.tiles,
        )
    }

    /// The declared tile size, 512 by 512 pixels when none is declared.
    pub fn get_tile_size(&self) -> (r: Size)
        ensures
            r == tile_size_spec(self.iiif_image_info.tiles),
    {
        tile_size_from(&self.iiif_image_info.tiles)
    }

    pub fn get_width(&self) -> (r: u32)
        ensures
            r == self.iiif_image_info.width,
    {
        self.iiif_image_info.width
    }

    pub fn get_height(&self) -> (r: u32)
        ensures
            r == self.iiif_image_info.height,
    {
        self.iiif_image_info.height
    }
}

} // verus!
