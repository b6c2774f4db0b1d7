//! The version 2 image information document: size, offered sizes, tiles, and
//! the profile that declares the service's capabilities, either inline or as
//! one of the three compliance-level URLs.

use vstd::prelude::*;
use vstd::string::StringExecFns;

use crate::iiif::image::{IiifFeature, IiifImageFormat, IiifImageQuality};
use crate::iiif::one_or_many::{OneOrMany, OneTypeOrMany};
use crate::iiif::IiifError;
use crate::rendering::tiled_image::Size;
use crate::text::str_eq;
use crate::util::copy_vec;

pub use crate::iiif::scaling::IiifTileInfo;

use crate::iiif::scaling::{
    optional_sizes_base, optional_sizes_from, scaling_sizes_base, scaling_sizes_from,
    sort_by_area_spec, sorted_by_area, tile_size_spec, tile_size_from,
};

verus! {

/// The raw version 2 image information document, as parsed.
#[derive(Debug)]
pub struct IiifImageInfo {
    pub width: u32,
    pub height: u32,
    pub sizes: Option<Vec<Size>>,
    pub tiles: Option<Vec<IiifTileInfo>>,
    pub profile: OneTypeOrMany<IiifProfileInfo>,
}

/// One entry of the document's profile list: a compliance-level URL or
/// inline details.
#[derive(Debug)]
pub enum IiifProfileInfo {
    Url(String),
    ProfileDetails(IiifProfileDetails),
}

/// A profile's details: the formats, qualities and features the image
/// service supports; each list may be absent.
#[derive(Debug)]
pub struct IiifProfileDetails {
    pub formats: Option<Vec<IiifImageFormat>>,
    pub qualities: Option<Vec<IiifImageQuality>>,
    pub supports: Option<Vec<IiifFeature>>,
}

/// The compliance level a profile URL names, when it names one.
pub open spec fn url_level(u: Seq<char>) -> Option<int> {
    if u == "http://iiif.io/api/image/2/level0.json"@ || u
        == "https://iiif.io/api/image/2/level0.json"@ {
        Option::Some(0int)
    } else if u == "http://iiif.io/api/image/2/level1.json"@ || u
        == "https://iiif.io/api/image/2/level1.json"@ {
        Option::Some(1int)
    } else if u == "http://iiif.io/api/image/2/level2.json"@ || u
        == "https://iiif.io/api/image/2/level2.json"@ {
        Option::Some(2int)
    } else {
        Option::None
    }
}

/// The formats a compliance level guarantees.
pub open spec fn level_formats(level: int) -> Seq<IiifImageFormat> {
    if level == 2 {
        seq![IiifImageFormat::Jpg, IiifImageFormat::Png]
    } else {
        seq![IiifImageFormat::Jpg]
    }
}

/// The qualities a compliance level guarantees.
pub open spec fn level_qualities(level: int) -> Seq<IiifImageQuality> {
    if level == 2 {
        seq![IiifImageQuality::Default, IiifImageQuality::Bitonal]
    } else {
        seq![IiifImageQuality::Default]
    }
}

/// The features a compliance level guarantees.
pub open spec fn level_supports(level: int) -> Seq<IiifFeature> {
    if level == 0 {
        seq![IiifFeature::SizeByWhListed]
    } else if level == 1 {
        seq![
            IiifFeature::SizeByWhListed,
            IiifFeature::BaseUriRedirect,
            IiifFeature::Cors,
            IiifFeature::JsonldMediaType,
            IiifFeature::RegionByPx,
            IiifFeature::SizeByH,
            IiifFeature::SizeByPct,
            IiifFeature::SizeByW,
        ]
    } else {
        seq![
            IiifFeature::SizeByWhListed,
            IiifFeature::BaseUriRedirect,
            IiifFeature::Cors,
            IiifFeature::JsonldMediaType,
            IiifFeature::RegionByPx,
            IiifFeature::SizeByH,
            IiifFeature::SizeByPct,
            IiifFeature::SizeByW,
            IiifFeature::RegionByPct,
            IiifFeature::RotationBy90s,
            IiifFeature::SizeByConfinedWh,
            IiifFeature::SizeByDistortedWh,
            IiifFeature::SizeByForcedWh,
            IiifFeature::SizeByWh,
        ]
    }
}

/// Whether the details are exactly those a compliance level guarantees.
pub open spec fn is_level_details(d: IiifProfileDetails, level: int) -> bool {
    &&& d.formats matches Option::Some(f) && f@ == level_formats(level)
    &&& d.qualities matches Option::Some(q) && q@ == level_qualities(level)
    &&& d.supports matches Option::Some(s) && s@ == level_supports(level)
}

/// Whether two details hold the same lists.
pub open spec fn details_like(a: IiifProfileDetails, b: IiifProfileDetails) -> bool {
    &&& match b.formats {
        Option::Some(fb) => a.formats matches Option::Some(fa) && fa@ == fb@,
        Option::None => a.formats is None,
    }
    &&& match b.qualities {
        Option::Some(qb) => a.qualities matches Option::Some(qa) && qa@ == qb@,
        Option::None => a.qualities is None,
    }
    &&& match b.supports {
        Option::Some(sb) => a.supports matches Option::Some(sa) && sa@ == sb@,
        Option::None => a.supports is None,
    }
}

impl Default for IiifProfileDetails {
    /// JPEG at default quality with no declared features.
    fn default() -> (r: IiifProfileDetails)
        ensures
            r.formats matches Option::Some(f) && f@ == seq![IiifImageFormat::Jpg],
            r.qualities matches Option::Some(q) && q@ == seq![IiifImageQuality::Default],
            r.supports matches Option::Some(s) && s@ == Seq::<IiifFeature>::empty(),
    {
        let mut formats: Vec<IiifImageFormat> = Vec::new();
        formats.push(IiifImageFormat::Jpg);
        let mut qualities: Vec<IiifImageQuality> = Vec::new();
        qualities.push(IiifImageQuality::Default);
        let supports: Vec<IiifFeature> = Vec::new();
        proof {
            assert(formats@ =~= seq![IiifImageFormat::Jpg]);
            assert(qualities@ =~= seq![IiifImageQuality::Default]);
        }
        IiifProfileDetails {
            formats: Option::Some(formats),
            qualities: Option::Some(qualities),
            supports: Option::Some(supports),
        }
    }
}

impl IiifProfileDetails {
    /// The details guaranteed by the compliance level this URL names; an
    /// error naming the URL when it names no known level.
    pub fn from_url(url: &str) -> (r: Result<IiifProfileDetails, IiifError>)
        ensures
            match r {
                Result::Ok(d) => url_level(url@) matches Option::Some(l) && is_level_details(d, l),
                Result::Err(e) => url_level(url@) is None && (e matches IiifError::IiifFormatError(
                    m,
                ) && m@ == "unexpected profile url "@ + url@),
            },
    {
        let level: u32 = if str_eq(url, "http://iiif.io/api/image/2/level0.json") || str_eq(
            url,
            "https://iiif.io/api/image/2/level0.json",
        ) {
            0
        } else if str_eq(url, "http://iiif.io/api/image/2/level1.json") || str_eq(
            url,
            "https://iiif.io/api/image/2/level1.json",
        ) {
            1
        } else if str_eq(url, "http://iiif.io/api/image/2/level2.json") || str_eq(
            url,
            "https://iiif.io/api/image/2/level2.json",
        ) {
            2
        } else {
            let mut msg = String::from_str("unexpected profile url ");
            msg.append(url);
            return Result::Err(IiifError::IiifFormatError(msg));
        };
        Result::Ok(level_details(level))
    }

    /// The features this profile supports; none when the list is absent.
    pub fn get_supported_features(&self) -> (r: Vec<IiifFeature>)
        ensures
            r@ == match self.supports {
                Option::Some(v) => v@,
                Option::None => Seq::<IiifFeature>::empty(),
            },
    {
        match &self.supports {
            Option::Some(v) => copy_vec(v),
            Option::None => Vec::new(),
        }
    }

    /// The formats this profile supports; none when the list is absent.
    pub fn get_formats(&self) -> (r: Vec<IiifImageFormat>)
        ensures
            r@ == match self.formats {
                Option::Some(v) => v@,
                Option::None => Seq::<IiifImageFormat>::empty(),
            },
    {
        match &self.formats {
            Option::Some(v) => copy_vec(v),
            Option::None => Vec::new(),
        }
    }
}

/// The details of one compliance level.
fn level_details(level: u32) -> (r: IiifProfileDetails)
    requires
        level <= 2,
    ensures
        is_level_details(r, level as int),
{
    let mut formats: Vec<IiifImageFormat> = Vec::new();
    formats.push(IiifImageFormat::Jpg);
    let mut qualities: Vec<IiifImageQuality> = Vec::new();
    qualities.push(IiifImageQuality::Default);
    let mut supports: Vec<IiifFeature> = Vec::new();
    supports.push(IiifFeature::SizeByWhListed);
    if level >= 1 {
        supports.push(IiifFeature::BaseUriRedirect);
        supports.push(IiifFeature::Cors);
        supports.push(IiifFeature::JsonldMediaType);
        supports.push(IiifFeature::RegionByPx);
        supports.push(IiifFeature::SizeByH);
        supports.push(IiifFeature::SizeByPct);
        supports.push(IiifFeature::SizeByW);
    }
    if level == 2 {
        formats.push(IiifImageFormat::Png);
        qualities.push(IiifImageQuality::Bitonal);
        supports.push(IiifFeature::RegionByPct);
        supports.push(IiifFeature::RotationBy90s);
        supports.push(IiifFeature::SizeByConfinedWh);
        supports.push(IiifFeature::SizeByDistortedWh);
        supports.push(IiifFeature::SizeByForcedWh);
        supports.push(IiifFeature::SizeByWh);
    }
    proof {
        assert(formats@ =~= level_formats(level as int));
        assert(qualities@ =~= level_qualities(level as int));
        assert(supports@ =~= level_supports(level as int));
    }
    IiifProfileDetails {
        formats: Option::Some(formats),
        qualities: Option::Some(qualities),
        supports: Option::Some(supports),
    }
}

/// A copy of a profile's details.
fn duplicate_details(d: &IiifProfileDetails) -> (r: IiifProfileDetails)
    ensures
        details_like(r, *d),
{
    IiifProfileDetails {
        formats: match &d.formats {
            Option::Some(v) => Option::Some(copy_vec(v)),
            Option::None => Option::None,
        },
        qualities: match &d.qualities {
            Option::Some(v) => Option::Some(copy_vec(v)),
            Option::None => Option::None,
        },
        supports: match &d.supports {
            Option::Some(v) => Option::Some(copy_vec(v)),
            Option::None => Option::None,
        },
    }
}

/// Whether a profile entry can be expanded into details.
pub open spec fn expanded_profile_ok(p: IiifProfileInfo) -> bool {
    match p {
        IiifProfileInfo::ProfileDetails(_) => true,
        IiifProfileInfo::Url(u) => url_level(u@) is Some,
    }
}

/// Whether `d` is the expansion of the profile entry `p`.
pub open spec fn profile_matches(d: IiifProfileDetails, p: IiifProfileInfo) -> bool {
    match p {
        IiifProfileInfo::ProfileDetails(pd) => details_like(d, pd),
        IiifProfileInfo::Url(u) => url_level(u@) matches Option::Some(l) && is_level_details(d, l),
    }
}

/// The version 2 document with its profile list expanded into details.
#[derive(Debug)]
pub struct ImageInfo {
    pub iiif_image_info: IiifImageInfo,
    pub expanded_profiles: Vec<IiifProfileDetails>,
}

impl ImageInfo {
    /// Expand the document's profiles. Succeeds exactly when the document
    /// has at least one profile and every profile URL names a known
    /// compliance level.
    pub fn try_from(iiif_image_info: IiifImageInfo) -> (r: Result<ImageInfo, IiifError>)
        ensures
            match r {
                Result::Ok(im) => {
                    &&& iiif_image_info.profile.items().len() > 0
                    &&& forall|i: int|
                        0 <= i < iiif_image_info.profile.items().len() ==> expanded_profile_ok(
                            #[trigger] iiif_image_info.profile.items()[i],
                        )
                    &&& im.iiif_image_info == iiif_image_info
                    &&& im.expanded_profiles@.len() == iiif_image_info.profile.items().len()
                    &&& forall|i: int|
                        0 <= i < im.expanded_profiles@.len() ==> profile_matches(
                            #[trigger] im.expanded_profiles@[i],
                            iiif_image_info.profile.items()[i],
                        )
                },
                Result::Err(e) => {
                    &&& iiif_image_info.profile.items().len() == 0 || exists|i: int|
                        0 <= i < iiif_image_info.profile.items().len() && !expanded_profile_ok(
                            #[trigger] iiif_image_info.profile.items()[i],
                        )
                    &&& iiif_image_info.profile.items().len() == 0 ==> (e
                        matches IiifError::IiifMissingInfo(m) && m@ == "Missing profile"@)
                },
            },
    {
        let profiles = iiif_image_info.profile.iter();
        if profiles.len() == 0 {
            return Result::Err(IiifError::IiifMissingInfo(String::from_str("Missing profile")));
        }
        let mut expanded_profiles: Vec<IiifProfileDetails> = Vec::new();
        let mut i: usize = 0;
        while i < profiles.len()
            invariant
                i <= profiles@.len(),
                profiles@.len() == iiif_image_info.profile.items().len(),
                forall|j: int|
                    0 <= j < profiles@.len() ==> *(#[trigger] profiles@[j])
                        == iiif_image_info.profile.items()[j],
                expanded_profiles@.len() == i,
                forall|j: int|
                    0 <= j < i ==> profile_matches(
                        #[trigger] expanded_profiles@[j],
                        iiif_image_info.profile.items()[j],
                    ),
            decreases profiles@.len() - i,
        {
            let d = match profiles[i] {
                IiifProfileInfo::ProfileDetails(pd) => duplicate_details(pd),
                IiifProfileInfo::Url(u) => {
                    match IiifProfileDetails::from_url(u.as_str()) {
                        Result::Ok(d) => d,
                        Result::Err(e) => {
                            return Result::Err(e);
                        },
                    }
                },
            };
            expanded_profiles.push(d);
            i = i + 1;
        }
        proof {
            assert forall|k: int|
                0 <= k < iiif_image_info.profile.items().len() implies expanded_profile_ok(
                #[trigger] iiif_image_info.profile.items()[k],
            ) by {
                assert(profile_matches(
                    expanded_profiles@[k],
                    iiif_image_info.profile.items()[k],
                ));
            }
        }
        Result::Ok(ImageInfo { iiif_image_info, expanded_profiles })
    }

    /// The whole-image sizes offered, sorted ascending by pixel area, the
    /// full size always among them.
    pub fn get_optional_sizes(&self) -> (r: Vec<Size>)
        ensures
            r@ == sort_by_area_spec(
                optional_sizes_base(
                    self.iiif_image_info.width,
                    self.iiif_image_info.height,
                    self.iiif_image_info.sizes,
                ),
            ),
            r@.to_multiset() == optional_sizes_base(
                self.iiif_image_info.width,
                self.iiif_image_info.height,
                self.iiif_image_info.sizes,
            ).to_multiset(),
            sorted_by_area(r@),
            r@.len() == optional_sizes_base(
                self.iiif_image_info.width,
                self.iiif_image_info.height,
                self.iiif_image_info.sizes,
            ).len(),
    {
        optional_sizes_from(
            self.iiif_image_info.width,
            self.iiif_image_info.height,
            &self.iiif_image_info.sizes,
        )
    }

    /// The expanded profile details.
    pub fn get_profile_details(&self) -> (r: &Vec<IiifProfileDetails>)
        ensures
            r == &self.expanded_profiles,
    {
        &self.expanded_profiles
    }

    /// The per-level sizes derived from the tile scale factors, sorted
    /// ascending by pixel area, the full size always among them.
    pub fn get_tile_scaling_sizes(&self) -> (r: Vec<Size>)
        requires
            match self.iiif_image_info.tiles {
                Option::Some(ts) => ts@.len() > 0 ==> forall|i: int|
                    0 <= i < ts@[0].scale_factors@.len() ==> (#[trigger] ts@[0].scale_factors@[i])
                        >= 1,
                Option::None => true,
            },
        ensures
            r@ == sort_by_area_spec(
                scaling_sizes_base(
                    self.iiif_image_info.width,
                    self.iiif_image_info.height,
                    self.iiif_image_info.tiles,
                ),
            ),
            r@.to_multiset() == scaling_sizes_base(
                self.iiif_image_info.width,
                self.iiif_image_info.height,
                self.iiif_image_info.tiles,
            ).to_multiset(),
            sorted_by_area(r@),
            r@.len() == scaling_sizes_base(
                self.iiif_image_info.width,
                self.iiif_image_info.height,
                self.iiif_image_info.tiles,
            ).len(),
    {
        scaling_sizes_from(
            self.iiif_image_info.width,
            self.iiif_image_info.height,
            &self.iiif_image_info.tiles,
        )
    }

    /// The declared tile size, 512 by 512 pixels when none is declared.
    pub fn get_tile_size(&self) -> (r: Size)
        ensures
            r == tile_size_spec(self.iiif_image_info.tiles),
    {
        tile_size_from(&self.iiif_image_info.tiles)
    }

    pub fn get_width(&self) -> (r: u32)
        ensures
            r == self.iiif_image_info.width,
    {
        self.iiif_image_info.width
    }

    pub fn get_height(&self) -> (r: u32)
        ensures
            r == self.iiif_image_info.height,
    {
        self.iiif_image_info.height
    }
}

} // verus!
