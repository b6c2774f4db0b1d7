//! Capability flags, image qualities and encodings of the IIIF image API.

use vstd::prelude::*;

use crate::iiif::scaling::{
    optional_sizes_base, scaling_sizes_base, sort_by_area_spec, sorted_by_area, tile_size_spec,
    IiifTileInfo,
};
use crate::iiif::{image_v2, image_v3};
use crate::rendering::tiled_image::Size;

verus! {

/// A capability that an image service can declare support for.
#[derive(Debug, Clone, Copy, PartialEq, Eq, Structural, Hash)]
pub enum IiifFeature {
    BaseUriRedirect,
    CanonicalLinkHeader,
    Cors,
    JsonldMediaType,
    Mirroring,
    ProfileLinkHeader,
    RegionByPct,
    RegionByPx,
    RegionSquare,
    RotationArbitrary,
    RotationBy90s,
    SizeByConfinedWh,
    SizeByH,
    SizeByPct,
    SizeByW,
    SizeByWh,
    SizeUpscaling,
    SizeByWhListed,
    SizeByForcedWh,
    SizeAboveFull,
    SizeByDistortedWh,
}

/// An image quality an image service can deliver.
#[derive(Debug, Clone, Copy, PartialEq, Eq, Structural)]
pub enum IiifImageQuality {
    Color,
    Gray,
    Bitonal,
    Native,
    Default,
}

impl IiifImageQuality {
    /// The token this quality takes in an image request URL.
    pub open spec fn spec_name(self) -> Seq<char> {
        match self {
            IiifImageQuality::Default => "default"@,
            IiifImageQuality::Bitonal => "bitonal"@,
            IiifImageQuality::Color => "color"@,
            IiifImageQuality::Gray => "gray"@,
            IiifImageQuality::Native => "native"@,
        }
    }

    pub fn name(&self) -> (r: &'static str)
        ensures
            r@ == self.spec_name(),
    {
        match self {
            IiifImageQuality::Default => "default",
            IiifImageQuality::Bitonal => "bitonal",
            IiifImageQuality::Color => "color",
            IiifImageQuality::Gray => "gray",
            IiifImageQuality::Native => "native",
        }
    }
}

/// An image encoding an image service can deliver.
#[derive(Debug, Clone, Copy, PartialEq, Eq, Structural)]
pub enum IiifImageFormat {
    Jpg,
    Png,
    Tif,
    Gif,
    Txt,
    Jp2,
    Pdf,
    Webp,
}

impl IiifImageFormat {
    /// The file extension this encoding takes in an image request URL.
    pub open spec fn spec_name(self) -> Seq<char> {
        match self {
            IiifImageFormat::Jpg => "jpg"@,
            IiifImageFormat::Png => "png"@,
            IiifImageFormat::Tif => "tif"@,
            IiifImageFormat::Gif => "gif"@,
            IiifImageFormat::Txt => "txt"@,
            IiifImageFormat::Jp2 => "jpg2"@,
            IiifImageFormat::Pdf => "pdf"@,
            IiifImageFormat::Webp => "webp"@,
        }
    }

    pub fn name(&self) -> (r: &'static str)
        ensures
            r@ == self.spec_name(),
    {
        match self {
            IiifImageFormat::Jpg => "jpg",
            IiifImageFormat::Png => "png",
            IiifImageFormat::Tif => "tif",
            IiifImageFormat::Gif => "gif",
            IiifImageFormat::Txt => "txt",
            IiifImageFormat::Jp2 => "jpg2",
            IiifImageFormat::Pdf => "pdf",
            IiifImageFormat::Webp => "webp",
        }
    }
}

/// An expanded image information document of either schema version.
#[derive(Debug)]
pub enum ImageInfo {
    Version3(image_v3::ImageInfo),
    Version2(image_v2::ImageInfo),
}

impl ImageInfo {
    /// Full-resolution width.
    pub open spec fn raw_width(self) -> u32 {
        match self {
            ImageInfo::Version3(im) => im.iiif_image_info.width,
            ImageInfo::Version2(im) => im.iiif_image_info.width,
        }
    }

    /// Full-resolution height.
    pub open spec fn raw_height(self) -> u32 {
        match self {
            ImageInfo::Version3(im) => im.iiif_image_info.height,
            ImageInfo::Version2(im) => im.iiif_image_info.height,
        }
    }

    /// The document's tile list.
    pub open spec fn raw_tiles(self) -> Option<Vec<IiifTileInfo>> {
        match self {
            ImageInfo::Version3(im) => im.iiif_image_info.tiles,
            ImageInfo::Version2(im) => im.iiif_image_info.tiles,
        }
    }

    /// The document's offered whole-image sizes.
    pub open spec fn raw_sizes(self) -> Option<Vec<Size>> {
        match self {
            ImageInfo::Version3(im) => im.iiif_image_info.sizes,
            ImageInfo::Version2(im) => im.iiif_image_info.sizes,
        }
    }

    /// Whether any expanded profile declares the feature.
    pub open spec fn spec_has_feature(self, f: IiifFeature) -> bool {
        match self {
            ImageInfo::Version3(im) => exists|i: int|
                0 <= i < im.expanded_profiles@.len() && (
                #[trigger] im.expanded_profiles@[i]).supports@.contains(f),
            ImageInfo::Version2(im) => exists|i: int|
                0 <= i < im.expanded_profiles@.len() && (match (
                #[trigger] im.expanded_profiles@[i]).supports {
                    Option::Some(s) => s@.contains(f),
                    Option::None => false,
                }),
        }
    }

    /// The first format of the first expanded profile, when both exist.
    pub open spec fn first_format_spec(self) -> Option<IiifImageFormat> {
        match self {
            ImageInfo::Version3(im) => if im.expanded_profiles@.len() > 0
                && im.expanded_profiles@[0].formats@.len() > 0 {
                Option::Some(im.expanded_profiles@[0].formats@[0])
            } else {
                Option::None
            },
            ImageInfo::Version2(im) => if im.expanded_profiles@.len() > 0 {
                match im.expanded_profiles@[0].formats {
                    Option::Some(fv) => if fv@.len() > 0 {
                        Option::Some(fv@[0])
                    } else {
                        Option::None
                    },
                    Option::None => Option::None,
                }
            } else {
                Option::None
            },
        }
    }

    /// Whether the service supports tiled fetching: pixel regions and
    /// explicit sizing together.
    pub open spec fn spec_tiled(self) -> bool {
        self.spec_has_feature(IiifFeature::RegionByPx) && self.spec_has_feature(
            IiifFeature::SizeByWh,
        )
    }

    /// The pyramid levels a descriptor built from this document carries: the
    /// sorted scaling sizes when the service is tiled, else one level equal
    /// to the full size.
    pub open spec fn built_levels(self) -> Seq<Size> {
        if self.spec_tiled() {
            sort_by_area_spec(
                scaling_sizes_base(self.raw_width(), self.raw_height(), self.raw_tiles()),
            )
        } else {
            seq![Size { width: self.raw_width(), height: self.raw_height() }]
        }
    }

    /// The tile size a descriptor built from this document carries: the
    /// declared tile size when the service is tiled, else the full size.
    pub open spec fn built_tile_size(self) -> Size {
        if self.spec_tiled() {
            tile_size_spec(self.raw_tiles())
        } else {
            Size { width: self.raw_width(), height: self.raw_height() }
        }
    }

    /// Whether every scale factor of the first tile is at least one, so the
    /// per-level sizes can be computed.
    pub open spec fn factors_ok(self) -> bool {
        match self.raw_tiles() {
            Option::Some(ts) => ts@.len() > 0 ==> forall|i: int|
                0 <= i < ts@[0].scale_factors@.len() ==> (#[trigger] ts@[0].scale_factors@[i]) >= 1,
            Option::None => true,
        }
    }

    pub fn get_width(&self) -> (r: u32)
        ensures
            r == self.raw_width(),
    {
        match self {
            ImageInfo::Version3(im) => im.get_width(),
            ImageInfo::Version2(im) => im.get_width(),
        }
    }

    pub fn get_height(&self) -> (r: u32)
        ensures
            r == self.raw_height(),
    {
        match self {
            ImageInfo::Version3(im) => im.get_height(),
            ImageInfo::Version2(im) => im.get_height(),
        }
    }

    /// The declared tile size with its fallback.
    pub fn get_tile_size(&self) -> (r: Size)
        ensures
            r == tile_size_spec(self.raw_tiles()),
    {
        match self {
            ImageInfo::Version3(im) => im.get_tile_size(),
            ImageInfo::Version2(im) => im.get_tile_size(),
        }
    }

    /// The whole-image sizes offered, sorted ascending by pixel area.
    pub fn get_optional_sizes(&self) -> (r: Vec<Size>)
        ensures
            r@ == sort_by_area_spec(
                optional_sizes_base(self.raw_width(), self.raw_height(), self.raw_sizes()),
            ),
            r@.to_multiset() == optional_sizes_base(
                self.raw_width(),
                self.raw_height(),
                self.raw_sizes(),
            ).to_multiset(),
            sorted_by_area(r@),
    {
        match self {
            ImageInfo::Version3(im) => im.get_optional_sizes(),
            ImageInfo::Version2(im) => im.get_optional_sizes(),
        }
    }

    /// The per-level sizes derived from the tile scale factors, sorted
    /// ascending by pixel area.
    pub fn get_tile_scaling_sizes(&self) -> (r: Vec<Size>)
        requires
            self.factors_ok(),
        ensures
            r@ == sort_by_area_spec(
                scaling_sizes_base(self.raw_width(), self.raw_height(), self.raw_tiles()),
            ),
            r@.to_multiset() == scaling_sizes_base(
                self.raw_width(),
                self.raw_height(),
                self.raw_tiles(),
            ).to_multiset(),
            sorted_by_area(r@),
    {
        match self {
            ImageInfo::Version3(im) => im.get_tile_scaling_sizes(),
            ImageInfo::Version2(im) => im.get_tile_scaling_sizes(),
        }
    }

    /// Every feature any expanded profile declares.
    pub fn get_supported_features(&self) -> (r: Vec<IiifFeature>)
        ensures
            forall|f: IiifFeature| r@.contains(f) <==> self.spec_has_feature(f),
    {
        match self {
            ImageInfo::Version3(im) => {
                let mut r: Vec<IiifFeature> = Vec::new();
                let mut i: usize = 0;
                while i < im.expanded_profiles.len()
                    invariant
                        i <= im.expanded_profiles@.len(),
                        forall|f: IiifFeature|
                            r@.contains(f) <==> exists|k: int|
                                0 <= k < i && (
                                #[trigger] im.expanded_profiles@[k]).supports@.contains(f),
                    decreases im.expanded_profiles@.len() - i,
                {
                    let ghost prefix = r@;
                    push_features(&mut r, &im.expanded_profiles[i].supports);
                    proof {
                        lemma_feature_step_v3(im.expanded_profiles@, prefix, r@, i as int);
                    }
                    i = i + 1;
                }
                r
            },
            ImageInfo::Version2(im) => {
                let mut r: Vec<IiifFeature> = Vec::new();
                let mut i: usize = 0;
                while i < im.expanded_profiles.len()
                    invariant
                        i <= im.expanded_profiles@.len(),
                        forall|f: IiifFeature|
                            r@.contains(f) <==> exists|k: int|
                                0 <= k < i && (match (
                                #[trigger] im.expanded_profiles@[k]).supports {
                                    Option::Some(s) => s@.contains(f),
                                    Option::None => false,
                                }),
                    decreases im.expanded_profiles@.len() - i,
                {
                    let ghost prefix = r@;
                    match &im.expanded_profiles[i].supports {
                        Option::Some(s) => {
                            push_features(&mut r, s);
                        },
                        Option::None => {},
                    }
                    proof {
                        assert(r@ =~= prefix + (match im.expanded_profiles@[i as int].supports {
                            Option::Some(s) => s@,
                            Option::None => Seq::<IiifFeature>::empty(),
                        }));
                        lemma_feature_step_v2(im.expanded_profiles@, prefix, r@, i as int);
                    }
                    i = i + 1;
                }
                r
            },
        }
    }

    /// The first format of the first profile, when both exist.
    pub fn first_format(&self) -> (r: Option<IiifImageFormat>)
        ensures
            r == self.first_format_spec(),
    {
        match self {
            ImageInfo::Version3(im) => {
                if im.expanded_profiles.len() > 0 && im.expanded_profiles[0].formats.len() > 0 {
                    Option::Some(im.expanded_profiles[0].formats[0])
                } else {
                    Option::None
                }
            },
            ImageInfo::Version2(im) => {
                if im.expanded_profiles.len() > 0 {
                    match &im.expanded_profiles[0].formats {
                        Option::Some(fv) => {
                            if fv.len() > 0 {
                                Option::Some(fv[0])
                            } else {
                                Option::None
                            }
                        },
                        Option::None => Option::None,
                    }
                } else {
                    Option::None
                }
            },
        }
    }
}

/// Append all features of one profile's list onto `r`.
fn push_features(r: &mut Vec<IiifFeature>, more: &Vec<IiifFeature>)
    ensures
        final(r)@ == old(r)@ + more@,
{
    let mut j: usize = 0;
    while j < more.len()
        invariant
            j <= more@.len(),
            r@ == old(r)@ + more@.take(j as int),
        decreases more@.len() - j,
    {
        r.push(more[j]);
        proof {
            assert(old(r)@ + more@.take(j as int + 1) =~= (old(r)@ + more@.take(j as int)).push(
                more@[j as int],
            ));
        }
        j = j + 1;
    }
    proof {
        assert(more@.take(more@.len() as int) =~= more@);
    }
}

/// The contains-characterization of one step of flattening the version 3
/// profile features.
proof fn lemma_feature_step_v3(
    profiles: Seq<image_v3::IiifProfileDetails>,
    prefix: Seq<IiifFeature>,
    r: Seq<IiifFeature>,
    i: int,
)
    requires
        0 <= i < profiles.len(),
        r == prefix + profiles[i].supports@,
        forall|f: IiifFeature|
            #[trigger] prefix.contains(f) <==> exists|k: int|
                0 <= k < i && (#[trigger] profiles[k]).supports@.contains(f),
    ensures
        forall|f: IiifFeature|
            r.contains(f) <==> exists|k: int|
                0 <= k < i + 1 && (#[trigger] profiles[k]).supports@.contains(f),
{
    assert forall|f: IiifFeature| #[trigger] r.contains(f) implies exists|k: int|
        0 <= k < i + 1 && (#[trigger] profiles[k]).supports@.contains(f) by {
        let p = choose|p: int| 0 <= p < r.len() && r[p] == f;
        if p < prefix.len() {
            assert(prefix.contains(f));
            let k = choose|k: int|
                0 <= k < i && (#[trigger] profiles[k]).supports@.contains(f);
            assert(profiles[k].supports@.contains(f));
        } else {
            assert(profiles[i].supports@[p - prefix.len()] == f);
            assert(profiles[i].supports@.contains(f));
        }
    }
    assert forall|f: IiifFeature|
        (exists|k: int|
            0 <= k < i + 1 && (#[trigger] profiles[k]).supports@.contains(f)) implies #[trigger] r
        .contains(f) by {
        let k = choose|k: int| 0 <= k < i + 1 && (#[trigger] profiles[k]).supports@.contains(f);
        if k < i {
            assert(prefix.contains(f));
            let p = choose|p: int| 0 <= p < prefix.len() && prefix[p] == f;
            assert(r[p] == f);
        } else {
            let p = choose|p: int|
                0 <= p < profiles[i].supports@.len() && profiles[i].supports@[p] == f;
            assert(r[prefix.len() + p] == f);
        }
    }
}

/// The contains-characterization of one step of flattening the version 2
/// profile features.
proof fn lemma_feature_step_v2(
    profiles: Seq<image_v2::IiifProfileDetails>,
    prefix: Seq<IiifFeature>,
    r: Seq<IiifFeature>,
    i: int,
)
    requires
        0 <= i < profiles.len(),
        r == prefix + (match profiles[i].supports {
            Option::Some(s) => s@,
            Option::None => Seq::<IiifFeature>::empty(),
        }),
        forall|f: IiifFeature|
            #[trigger] prefix.contains(f) <==> exists|k: int|
                0 <= k < i && (match (#[trigger] profiles[k]).supports {
                    Option::Some(s) => s@.contains(f),
                    Option::None => false,
                }),
    ensures
        forall|f: IiifFeature|
            r.contains(f) <==> exists|k: int|
                0 <= k < i + 1 && (match (#[trigger] profiles[k]).supports {
                    Option::Some(s) => s@.contains(f),
                    Option::None => false,
                }),
{
    let cur = match profiles[i].supports {
        Option::Some(s) => s@,
        Option::None => Seq::<IiifFeature>::empty(),
    };
    assert forall|f: IiifFeature| #[trigger] r.contains(f) implies exists|k: int|
        0 <= k < i + 1 && (match (#[trigger] profiles[k]).supports {
            Option::Some(s) => s@.contains(f),
            Option::None => false,
        }) by {
        let p = choose|p: int| 0 <= p < r.len() && r[p] == f;
        if p < prefix.len() {
            assert(prefix.contains(f));
            let k = choose|k: int|
                0 <= k < i && (match (#[trigger] profiles[k]).supports {
                    Option::Some(s) => s@.contains(f),
                    Option::None => false,
                });
            assert(0 <= k < i + 1 && (match profiles[k].supports {
                Option::Some(s) => s@.contains(f),
                Option::None => false,
            }));
        } else {
            assert(cur[p - prefix.len()] == f);
            assert(cur.contains(f));
            assert(0 <= i < i + 1 && (match profiles[i].supports {
                Option::Some(s) => s@.contains(f),
                Option::None => false,
            }));
        }
    }
    assert forall|f: IiifFeature|
        (exists|k: int|
            0 <= k < i + 1 && (match (#[trigger] profiles[k]).supports {
                Option::Some(s) => s@.contains(f),
                Option::None => false,
            })) implies #[trigger] r.contains(f) by {
        let k = choose|k: int|
            0 <= k < i + 1 && (match (#[trigger] profiles[k]).supports {
                Option::Some(s) => s@.contains(f),
                Option::None => false,
            });
        if k < i {
            assert(prefix.contains(f));
            let p = choose|p: int| 0 <= p < prefix.len() && prefix[p] == f;
            assert(r[p] == f);
        } else {
            let p = choose|p: int| 0 <= p < cur.len() && cur[p] == f;
            assert(r[prefix.len() + p] == f);
        }
    }
}

} // verus!
