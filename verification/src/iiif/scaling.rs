//! Tile descriptors and the size computations shared by both versions of the
//! image information document: the tile size with its fallback, the offered
//! whole-image sizes, and the per-level scaling sizes, each sorted ascending
//! by pixel area.

use vstd::prelude::*;
use vstd::multiset::Multiset;
use vstd::seq_lib::group_to_multiset_ensures;

use crate::rendering::tiled_image::Size;
use crate::util::copy_vec;

verus! {

/// The tile description of an image information document: tile width, an
/// optional tile height (the width again when missing), and the scale
/// factors of the pyramid's levels.
#[derive(Debug, PartialEq)]
pub struct IiifTileInfo {
    pub width: u32,
    pub height: Option<u32>,
    pub scale_factors: Vec<u32>,
}

/// The pixel area of a size.
pub open spec fn area(s: Size) -> int {
    s.width * s.height
}

/// Ascending by pixel area.
pub open spec fn sorted_by_area(s: Seq<Size>) -> bool {
    forall|i: int, j: int| 0 <= i < j < s.len() ==> area(#[trigger] s[i]) <= area(#[trigger] s[j])
}

/// The sizes with the full size appended, unless a size with the full width
/// and height is already present.
pub open spec fn with_full_size(sizes: Seq<Size>, width: u32, height: u32) -> Seq<Size> {
    if exists|i: int|
        0 <= i < sizes.len() && (#[trigger] sizes[i]).width == width && sizes[i].height
            == height {
        sizes
    } else {
        sizes.push(Size { width, height })
    }
}

/// The whole-image sizes the document offers, before sorting: the listed
/// sizes plus the full size when missing, or the full size alone.
pub open spec fn optional_sizes_base(
    width: u32,
    height: u32,
    sizes: Option<Vec<Size>>,
) -> Seq<Size> {
    match sizes {
        Option::Some(v) => with_full_size(v@, width, height),
        Option::None => seq![Size { width, height }],
    }
}

/// The per-level sizes derived from the first tile's scale factors, before
/// sorting: the full size divided by each factor, plus the full size itself
/// when missing; the full size alone without tiles.
pub open spec fn scaling_sizes_base(
    width: u32,
    height: u32,
    tiles: Option<Vec<IiifTileInfo>>,
) -> Seq<Size> {
    let scaled = match tiles {
        Option::Some(ts) => if ts@.len() > 0 {
            Seq::new(
                ts@[0].scale_factors@.len(),
                |i: int|
                    Size {
                        width: (width as int / ts@[0].scale_factors@[i] as int) as u32,
                        height: (height as int / ts@[0].scale_factors@[i] as int) as u32,
                    },
            )
        } else {
            Seq::empty()
        },
        Option::None => Seq::empty(),
    };
    with_full_size(scaled, width, height)
}

/// The tile size the document declares: the first tile's width and height
/// (its width again when it has no height), or 512 by 512 pixels when the
/// document declares no tiles.
pub open spec fn tile_size_spec(tiles: Option<Vec<IiifTileInfo>>) -> Size {
    match tiles {
        Option::Some(ts) => if ts@.len() > 0 {
            Size {
                width: ts@[0].width,
                height: match ts@[0].height {
                    Option::Some(h) => h,
                    Option::None => ts@[0].width,
                },
            }
        } else {
            Size { width: 512, height: 512 }
        },
        Option::None => Size { width: 512, height: 512 },
    }
}

/// The tile size with its fallback, from the document's tile list.
pub fn tile_size_from(tiles: &Option<Vec<IiifTileInfo>>) -> (r: Size)
    ensures
        r == tile_size_spec(*tiles),
{
    match tiles {
        Option::Some(ts) => {
            if ts.len() > 0 {
                let h = match ts[0].height {
                    Option::Some(h) => h,
                    Option::None => ts[0].width,
                };
                Size { width: ts[0].width, height: h }
            } else {
                Size { width: 512, height: 512 }
            }
        },
        Option::None => Size { width: 512, height: 512 },
    }
}

/// The whole-image sizes, sorted ascending by pixel area.
pub fn optional_sizes_from(width: u32, height: u32, sizes: &Option<Vec<Size>>) -> (r: Vec<Size>)
    ensures
        r@ == sort_by_area_spec(optional_sizes_base(width, height, *sizes)),
        r@.to_multiset() == optional_sizes_base(width, height, *sizes).to_multiset(),
        sorted_by_area(r@),
        r@.len() == optional_sizes_base(width, height, *sizes).len(),
{
    let mut base: Vec<Size> = match sizes {
        Option::Some(v) => copy_vec(v),
        Option::None => Vec::new(),
    };
    match sizes {
        Option::Some(_) => {
            if !has_size(&base, width, height) {
                base.push(Size { width, height });
            }
        },
        Option::None => {
            base.push(Size { width, height });
            proof {
                assert(base@ =~= seq![Size { width, height }]);
            }
        },
    }
    assert(base@ == optional_sizes_base(width, height, *sizes));
    sort_sizes_by_area(base)
}

/// The per-level scaling sizes, sorted ascending by pixel area. Every scale
/// factor of the first tile must be at least one.
pub fn scaling_sizes_from(width: u32, height: u32, tiles: &Option<Vec<IiifTileInfo>>) -> (r: Vec<
    Size,
>)
    requires
        match *tiles {
            Option::Some(ts) => ts@.len() > 0 ==> forall|i: int|
                0 <= i < ts@[0].scale_factors@.len() ==> (#[trigger] ts@[0].scale_factors@[i]) >= 1,
            Option::None => true,
        },
    ensures
        r@ == sort_by_area_spec(scaling_sizes_base(width, height, *tiles)),
        r@.to_multiset() == scaling_sizes_base(width, height, *tiles).to_multiset(),
        sorted_by_area(r@),
        r@.len() == scaling_sizes_base(width, height, *tiles).len(),
{
    let mut base: Vec<Size> = Vec::new();
    match tiles {
        Option::Some(ts) => {
            if ts.len() > 0 {
                let factors = &ts[0].scale_factors;
                let mut i: usize = 0;
                while i < factors.len()
                    invariant
                        i <= factors@.len(),
                        forall|k: int|
                            0 <= k < factors@.len() ==> (#[trigger] factors@[k]) >= 1,
                        base@.len() == i,
                        forall|k: int|
                            0 <= k < i ==> #[trigger] base@[k] == (Size {
                                width: (width as int / factors@[k] as int) as u32,
                                height: (height as int / factors@[k] as int) as u32,
                            }),
                    decreases factors@.len() - i,
                {
                    let f = factors[i];
                    base.push(Size { width: width / f, height: height / f });
                    i = i + 1;
                }
            }
        },
        Option::None => {},
    }
    proof {
        let scaled = match tiles {
            Option::Some(ts) => if ts@.len() > 0 {
                Seq::new(
                    ts@[0].scale_factors@.len(),
                    |i: int|
                        Size {
                            width: (width as int / ts@[0].scale_factors@[i] as int) as u32,
                            height: (height as int / ts@[0].scale_factors@[i] as int) as u32,
                        },
                )
            } else {
                Seq::<Size>::empty()
            },
            Option::None => Seq::<Size>::empty(),
        };
        assert(base@ =~= scaled);
    }
    if !has_size(&base, width, height) {
        base.push(Size { width, height });
    }
    assert(base@ == scaling_sizes_base(width, height, *tiles));
    sort_sizes_by_area(base)
}

/// Whether the list holds a size with exactly this width and height.
fn has_size(sizes: &Vec<Size>, width: u32, height: u32) -> (r: bool)
    ensures
        r == exists|i: int|
            0 <= i < sizes@.len() && (#[trigger] sizes@[i]).width == width && sizes@[i].height
                == height,
{
    let mut i: usize = 0;
    while i < sizes.len()
        invariant
            i <= sizes@.len(),
            forall|j: int|
                0 <= j < i ==> !((#[trigger] sizes@[j]).width == width && sizes@[j].height
                    == height),
        decreases sizes@.len() - i,
    {
        if sizes[i].width == width && sizes[i].height == height {
            return true;
        }
        i = i + 1;
    }
    false
}

/// The position of the smallest size by area, the earliest among ties.
pub open spec fn first_min_pos(s: Seq<Size>) -> int
    decreases s.len(),
{
    if s.len() <= 1 {
        0
    } else {
        let rest = first_min_pos(s.drop_first()) + 1;
        if area(s[0]) <= area(s[rest]) {
            0
        } else {
            rest
        }
    }
}

/// `first_min_pos` names a valid position whose area no size beats and no
/// earlier size matches.
proof fn lemma_first_min_pos_props(s: Seq<Size>)
    requires
        s.len() > 0,
    ensures
        0 <= first_min_pos(s) < s.len(),
        forall|k: int| 0 <= k < s.len() ==> area(s[first_min_pos(s)]) <= area(#[trigger] s[k]),
        forall|k: int| 0 <= k < first_min_pos(s) ==> area(s[first_min_pos(s)]) < area(#[trigger] s[k]),
    decreases s.len(),
{
    if s.len() > 1 {
        lemma_first_min_pos_props(s.drop_first());
        let rest = first_min_pos(s.drop_first()) + 1;
        assert(forall|k: int|
            1 <= k < s.len() ==> #[trigger] s[k] == s.drop_first()[k - 1]);
    }
}

/// The sizes sorted ascending by pixel area, sizes of equal area in their
/// original order: the earliest smallest size moves over first.
pub open spec fn sort_by_area_spec(s: Seq<Size>) -> Seq<Size>
    decreases s.len() via sort_by_area_spec_decreases
{
    if s.len() == 0 {
        s
    } else {
        seq![s[first_min_pos(s)]] + sort_by_area_spec(s.remove(first_min_pos(s)))
    }
}

#[via_fn]
proof fn sort_by_area_spec_decreases(s: Seq<Size>) {
    if s.len() > 0 {
        lemma_first_min_pos_props(s);
    }
}

/// Sort sizes ascending by pixel area, by repeatedly moving the smallest
/// remaining size over; sizes of equal area keep their relative order.
pub fn sort_sizes_by_area(v: Vec<Size>) -> (r: Vec<Size>)
    ensures
        r@ == sort_by_area_spec(v@),
        r@.to_multiset() == v@.to_multiset(),
        sorted_by_area(r@),
        r@.len() == v@.len(),
{
    broadcast use group_to_multiset_ensures;

    let mut rest = v;
    let mut r: Vec<Size> = Vec::new();
    proof {
        assert(r@.to_multiset().add(rest@.to_multiset()) =~= v@.to_multiset());
        assert(r@ + sort_by_area_spec(rest@) =~= sort_by_area_spec(v@));
    }
    while rest.len() > 0
        invariant
            r@.len() + rest@.len() == v@.len(),
            r@.to_multiset().add(rest@.to_multiset()) == v@.to_multiset(),
            r@ + sort_by_area_spec(rest@) == sort_by_area_spec(v@),
            sorted_by_area(r@),
            forall|i: int, j: int|
                0 <= i < r@.len() && 0 <= j < rest@.len() ==> area(#[trigger] r@[i]) <= area(
                    #[trigger] rest@[j],
                ),
        decreases rest@.len(),
    {
        let m = min_area_position(&rest);
        let ghost pre = rest@;
        proof {
            lemma_first_min_pos_props(pre);
            let ms = first_min_pos(pre);
            if (m as int) < ms {
                assert(area(pre[ms]) <= area(pre[m as int]));
                assert(area(pre[ms]) < area(pre[m as int]));
                assert(area(pre[m as int]) <= area(pre[ms]));
                assert(false);
            }
            if ms < m as int {
                assert(area(pre[m as int]) <= area(pre[ms]));
                assert(area(pre[m as int]) < area(pre[ms]));
                assert(area(pre[ms]) <= area(pre[m as int]));
                assert(false);
            }
            assert(m as int == first_min_pos(pre));
        }
        let e = rest.remove(m);
        let ghost r_prev = r@;
        r.push(e);
        proof {
            assert(r@ =~= r_prev + seq![e]);
            assert(pre.len() > 0 && pre[m as int] == e && pre.remove(m as int) == rest@);
            assert(sort_by_area_spec(pre) == seq![pre[first_min_pos(pre)]] + sort_by_area_spec(
                pre.remove(first_min_pos(pre)),
            ));
            assert(r@ + sort_by_area_spec(rest@) =~= r_prev + sort_by_area_spec(pre));
            broadcast use group_to_multiset_ensures;

            assert(rest@.to_multiset() =~= pre.to_multiset().remove(e));
            assert(r@.to_multiset() =~= r_prev.to_multiset().insert(e));
            assert(pre.to_multiset().count(e) > 0) by {
                assert(pre[m as int] == e);
                assert(pre.contains(e));
            }
            assert(r@.to_multiset().add(rest@.to_multiset()) =~= v@.to_multiset());
            assert forall|i: int, j: int|
                0 <= i < r@.len() && 0 <= j < rest@.len() implies area(#[trigger] r@[i]) <= area(
                #[trigger] rest@[j],
            ) by {
                if j < m {
                    assert(rest@[j] == pre[j]);
                } else {
                    assert(rest@[j] == pre[j + 1]);
                }
                if i < r@.len() - 1 {
                    assert(r@[i] == r_prev[i]);
                } else {
                    assert(r@[i] == e);
                }
            }
        }
    }
    proof {
        assert(rest@.to_multiset() =~= Multiset::<Size>::empty());
        assert(r@.to_multiset() =~= v@.to_multiset());
        assert(r@ + sort_by_area_spec(rest@) =~= r@);
    }
    r
}

/// The position of the smallest size by area, the earliest among ties.
fn min_area_position(v: &Vec<Size>) -> (m: usize)
    requires
        v@.len() > 0,
    ensures
        m < v@.len(),
        forall|k: int| 0 <= k < v@.len() ==> area(v@[m as int]) <= area(#[trigger] v@[k]),
        forall|k: int| 0 <= k < m ==> area(v@[m as int]) < area(#[trigger] v@[k]),
{
    let mut m: usize = 0;
    let mut i: usize = 1;
    while i < v.len()
        invariant
            m < i <= v@.len(),
            forall|k: int| 0 <= k < i ==> area(v@[m as int]) <= area(#[trigger] v@[k]),
            forall|k: int| 0 <= k < m ==> area(v@[m as int]) < area(#[trigger] v@[k]),
        decreases v@.len() - i,
    {
        proof {
            lemma_area_fits(v@[i as int]);
            lemma_area_fits(v@[m as int]);
        }
        let ai = v[i].width as u64 * v[i].height as u64;
        let am = v[m].width as u64 * v[m].height as u64;
        if ai < am {
            m = i;
        }
        i = i + 1;
    }
    m
}

/// A pixel area fits a 64-bit product.
proof fn lemma_area_fits(s: Size)
    ensures
        0 <= area(s) <= 0xFFFF_FFFE_0000_0001,
{
    assert(0 <= s.width * s.height <= 0xFFFF_FFFE_0000_0001) by (nonlinear_arith)
        requires
            0 <= s.width <= 0xFFFF_FFFF,
            0 <= s.height <= 0xFFFF_FFFF,
    ;
}

} // verus!
