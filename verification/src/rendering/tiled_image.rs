//! The pyramid descriptor: per-level sizes, tile size, encoding and
//! capability flags of one deep-zoom image, with the coordinate transforms,
//! the level-selection rule, the required-tile computation and the request
//! URL builder.

use vstd::prelude::*;
use vstd::arithmetic::div_mod::{
    lemma_fundamental_div_mod, lemma_fundamental_div_mod_converse, lemma_div_is_ordered,
    lemma_div_multiples_vanish, lemma_div_pos_is_pos, lemma_remainder_lower,
    lemma_remainder_upper,
};

use vstd::string::StringExecFns;

use crate::frac::{lemma_round_le, Frac, FracPoint, FracRect, DEN_LIM};
use crate::iiif::image::{IiifFeature, IiifImageFormat};
use crate::iiif::IiifError;
use crate::rendering::tile::{Tile, TileIndex, TileRange};
use crate::text::{spec_decimal, u32_to_string};

verus! {

/// Largest pixel dimension (width or height) the engine accepts, chosen so
/// that every product formed by the tile geometry fits an `i64`.
pub const DIM_LIM: u32 = 0x8_0000;

/// Pixel dimensions of a level, a tile, or a whole-image variant.
#[derive(Debug, Clone, Copy, PartialEq, Eq, Structural)]
pub struct Size {
    pub width: u32,
    pub height: u32,
}

impl Size {
    pub fn new(width: u32, height: u32) -> (r: Size)
        ensures
            r == (Size { width, height }),
    {
        Size { width, height }
    }
}

/// The pyramid descriptor of one deep-zoom image.
///
/// `levels` is ordered from the lowest resolution to the full resolution;
/// the last entry is the image's full pixel size.
pub struct TiledImage {
    /// Base URL of the image service this image is addressed through.
    pub iiif_endpoint: String,
    /// Per-level pixel sizes, ascending, full resolution last.
    pub levels: Vec<Size>,
    /// Pixel size of one tile.
    pub tile_size: Size,
    /// Negotiated image encoding.
    pub image_format: IiifImageFormat,
    /// Capabilities the image service declared.
    pub supported_features: Vec<IiifFeature>,
    /// Whole-image sizes offered for thumbnailing.
    pub optional_sizes: Vec<Size>,
}

impl TiledImage {
    /// Full-resolution width in pixels.
    pub open spec fn max_w(self) -> int {
        self.levels@.last().width as int
    }

    /// Full-resolution height in pixels.
    pub open spec fn max_h(self) -> int {
        self.levels@.last().height as int
    }

    /// Width in pixels of the given level.
    pub open spec fn lvl_w(self, level: int) -> int {
        self.levels@[level].width as int
    }

    /// Tile width and height in pixels.
    pub open spec fn tw(self) -> int {
        self.tile_size.width as int
    }

    pub open spec fn th(self) -> int {
        self.tile_size.height as int
    }

    /// A well-formed pyramid: at least one level, every dimension at least
    /// one pixel and within `DIM_LIM`, and no level wider than the full
    /// resolution.
    pub open spec fn wf(self) -> bool {
        pyramid_wf(self.levels@, self.tile_size)
    }

    pub fn new(
        iiif_endpoint: String,
        tile_size: Size,
        levels: Vec<Size>,
        image_format: IiifImageFormat,
        supported_features: Vec<IiifFeature>,
        optional_sizes: Vec<Size>,
    ) -> (r: TiledImage)
        ensures
            r.iiif_endpoint == iiif_endpoint,
            r.tile_size == tile_size,
            r.levels == levels,
            r.image_format == image_format,
            r.supported_features == supported_features,
            r.optional_sizes == optional_sizes,
    {
        TiledImage { iiif_endpoint, tile_size, levels, image_format, supported_features, optional_sizes }
    }

    /// Whether the image service declared the capability `f`.
    pub fn supports(&self, f: IiifFeature) -> (r: bool)
        ensures
            r == self.supported_features@.contains(f),
    {
        let mut i: usize = 0;
        while i < self.supported_features.len()
            invariant
                0 <= i <= self.supported_features@.len(),
                forall|j: int| 0 <= j < i ==> self.supported_features@[j] != f,
            decreases self.supported_features@.len() - i,
        {
            if self.supported_features[i] == f {
                return true;
            }
            i = i + 1;
        }
        false
    }

    /// The full-resolution pixel size of the image.
    pub fn get_max_size(&self) -> (r: Size)
        requires
            self.levels@.len() >= 1,
        ensures
            r == self.levels@.last(),
    {
        self.levels[self.levels.len() - 1]
    }

    /// Convert a point from world space to image space: the vertical axis is
    /// reflected, nothing is scaled.
    pub fn world_to_image(&self, p: (i64, i64)) -> (r: (i64, i64))
        requires
            p.1 != i64::MIN,
        ensures
            r.0 == world_to_image_spec(p.0 as int, p.1 as int).0,
            r.1 == world_to_image_spec(p.0 as int, p.1 as int).1,
    {
        (p.0, -p.1)
    }

    /// Convert a point from image space to world space: the vertical axis is
    /// reflected, nothing is scaled.
    pub fn image_to_world(&self, p: (i64, i64)) -> (r: (i64, i64))
        requires
            p.1 != i64::MIN,
        ensures
            r.0 == image_to_world_spec(p.0 as int, p.1 as int).0,
            r.1 == image_to_world_spec(p.0 as int, p.1 as int).1,
    {
        (p.0, -p.1)
    }

    /// The linear factor from the given level's pixel grid to the
    /// full-resolution grid: `max_w / levels[level].width`.
    pub fn world_to_image_scale(&self, level: usize) -> (r: Frac)
        requires
            self.wf(),
            level < self.levels@.len(),
        ensures
            r.num == self.max_w(),
            r.den == self.lvl_w(level as int),
            r.wf(),
    {
        let mw = self.levels[self.levels.len() - 1].width;
        let lw = self.levels[level].width;
        Frac { num: mw as i64, den: lw as i64 }
    }

    /// Map a tile-grid coordinate of the given level to image space: the
    /// coordinate times the tile size times the level's scale.
    pub fn tile_to_image(&self, level: usize, p: (u32, u32)) -> (r: FracPoint)
        requires
            self.wf(),
            level < self.levels@.len(),
            p.0 * self.tw() <= 2 * DIM_LIM,
            p.1 * self.th() <= 2 * DIM_LIM,
        ensures
            r.x.num == p.0 * self.tw() * self.max_w(),
            r.x.den == self.lvl_w(level as int),
            r.y.num == p.1 * self.th() * self.max_w(),
            r.y.den == self.lvl_w(level as int),
            r.wf(),
    {
        let mw = self.levels[self.levels.len() - 1].width as u64;
        let lw = self.levels[level].width as i64;
        proof {
            assert(0 <= (p.0 * self.tw()) * self.max_w() <= 0x80_0000_0000) by (nonlinear_arith)
                requires
                    0 <= p.0 * self.tw() <= 2 * DIM_LIM,
                    0 < self.max_w() <= DIM_LIM,
            ;
            assert(0 <= (p.1 * self.th()) * self.max_w() <= 0x80_0000_0000) by (nonlinear_arith)
                requires
                    0 <= p.1 * self.th() <= 2 * DIM_LIM,
                    0 < self.max_h() <= DIM_LIM,
                    0 < self.max_w() <= DIM_LIM,
            ;
            assert(0 <= p.0 * self.tw()) by (nonlinear_arith);
            assert(0 <= p.1 * self.th()) by (nonlinear_arith);
        }
        let xn = (p.0 as u64 * self.tile_size.width as u64) * mw;
        let yn = (p.1 as u64 * self.tile_size.height as u64) * mw;
        FracPoint {
            x: Frac { num: xn as i64, den: lw },
            y: Frac { num: yn as i64, den: lw },
        }
    }

    /// Map an image-space point to the given level's tile grid: the point
    /// divided by the tile size times the level's scale.
    pub fn image_to_tile(&self, level: usize, p: (i64, i64)) -> (r: FracPoint)
        requires
            self.wf(),
            level < self.levels@.len(),
            -DIM_LIM <= p.0 <= DIM_LIM,
            -DIM_LIM <= p.1 <= DIM_LIM,
        ensures
            r.x.num == p.0 * self.lvl_w(level as int),
            r.x.den == self.tw() * self.max_w(),
            r.y.num == p.1 * self.lvl_w(level as int),
            r.y.den == self.th() * self.max_w(),
    {
        let mw = self.levels[self.levels.len() - 1].width as i64;
        let lw = self.levels[level].width as i64;
        proof {
            lemma_dim_products(p.0 as int, lw as int, self.tw(), mw as int);
            lemma_dim_products(p.1 as int, lw as int, self.th(), mw as int);
        }
        FracPoint {
            x: Frac { num: p.0 * lw, den: self.tile_size.width as i64 * mw },
            y: Frac { num: p.1 * lw, den: self.tile_size.height as i64 * mw },
        }
    }

    /// The pixel width the screen needs of this image at zoom scale `s`:
    /// the full resolution divided by `s`, rounded down.
    pub open spec fn needed_width(self, s: Frac) -> int {
        (self.max_w() * s.den) / (s.num as int)
    }

    /// The level the engine selects when `needed` pixels of width are
    /// required, searching from index `i` on: the lowest level at least that
    /// wide, or the last level when none is.
    pub open spec fn level_at_from(self, needed: int, i: int) -> int
        decreases self.levels@.len() - i when 0 <= i < self.levels@.len()
    {
        if i == self.levels@.len() - 1 {
            i
        } else if needed <= self.lvl_w(i) {
            i
        } else {
            self.level_at_from(needed, i + 1)
        }
    }

    /// The level selected for world zoom scale `s`.
    pub open spec fn level_at_spec(self, s: Frac) -> int {
        self.level_at_from(self.needed_width(s), 0)
    }

    /// Select the resolution level for the given world zoom scale: the
    /// lowest level whose width is at least the width the screen needs,
    /// or the highest-resolution level when none suffices.
    pub fn get_level_at(&self, world_zoom_scale: Frac) -> (r: usize)
        requires
            self.wf(),
            world_zoom_scale.wf(),
            world_zoom_scale.num > 0,
        ensures
            r == self.level_at_spec(world_zoom_scale),
    {
        let max_level = self.levels.len() - 1;
        let mw = self.levels[max_level].width as u64;
        proof {
            assert(0 <= self.max_w() * world_zoom_scale.den <= 0x200_0000_0000_0000)
                by (nonlinear_arith)
                requires
                    0 < self.max_w() <= DIM_LIM,
                    0 < world_zoom_scale.den <= crate::frac::DEN_LIM,
            ;
        }
        let needed = (mw * world_zoom_scale.den as u64) / world_zoom_scale.num as u64;
        assert(needed == self.needed_width(world_zoom_scale));
        let mut level: usize = 0;
        while level < max_level
            invariant
                0 <= level <= max_level,
                max_level == self.levels@.len() - 1,
                self.wf(),
                needed == self.needed_width(world_zoom_scale),
                self.level_at_spec(world_zoom_scale) == self.level_at_from(needed as int, level as int),
            decreases max_level - level,
        {
            if needed <= self.levels[level].width as u64 {
                return level;
            }
            level = level + 1;
        }
        max_level
    }
}

impl TiledImage {
    /// Left edge of the clamped viewport in image space: both corners
    /// converted to image space, clamped into the image, and ordered.
    pub open spec fn view_x0(self, wmin: (int, int), wmax: (int, int)) -> int {
        vstd::math::min(
            clamp_to(wmin.0, self.max_w() - 1),
            clamp_to(wmax.0, self.max_w() - 1),
        )
    }

    /// Right edge of the clamped viewport in image space.
    pub open spec fn view_x1(self, wmin: (int, int), wmax: (int, int)) -> int {
        vstd::math::max(
            clamp_to(wmin.0, self.max_w() - 1),
            clamp_to(wmax.0, self.max_w() - 1),
        )
    }

    /// Top edge of the clamped viewport in image space.
    pub open spec fn view_y0(self, wmin: (int, int), wmax: (int, int)) -> int {
        vstd::math::min(
            clamp_to(-wmin.1, self.max_h() - 1),
            clamp_to(-wmax.1, self.max_h() - 1),
        )
    }

    /// Bottom edge of the clamped viewport in image space.
    pub open spec fn view_y1(self, wmin: (int, int), wmax: (int, int)) -> int {
        vstd::math::max(
            clamp_to(-wmin.1, self.max_h() - 1),
            clamp_to(-wmax.1, self.max_h() - 1),
        )
    }

    /// Tile-grid coordinate of image coordinate `p` at `level`, along an axis
    /// whose tile dimension is `t`.
    pub open spec fn tile_coord(self, level: int, t: int, p: int) -> int {
        (p * self.lvl_w(level)) / (t * self.max_w())
    }

    /// First required tile column for the given viewport.
    pub open spec fn req_tx0(self, level: int, wmin: (int, int), wmax: (int, int)) -> int {
        self.tile_coord(level, self.tw(), self.view_x0(wmin, wmax))
    }

    /// Last required tile column.
    pub open spec fn req_tx1(self, level: int, wmin: (int, int), wmax: (int, int)) -> int {
        self.tile_coord(level, self.tw(), self.view_x1(wmin, wmax))
    }

    /// First required tile row.
    pub open spec fn req_ty0(self, level: int, wmin: (int, int), wmax: (int, int)) -> int {
        self.tile_coord(level, self.th(), self.view_y0(wmin, wmax))
    }

    /// Last required tile row.
    pub open spec fn req_ty1(self, level: int, wmin: (int, int), wmax: (int, int)) -> int {
        self.tile_coord(level, self.th(), self.view_y1(wmin, wmax))
    }

    /// Number of required tile columns.
    pub open spec fn req_cols(self, level: int, wmin: (int, int), wmax: (int, int)) -> int {
        self.req_tx1(level, wmin, wmax) - self.req_tx0(level, wmin, wmax) + 1
    }

    /// Image-space start (a numerator over denominator `lvl_w(level)`) of
    /// tile cell `k` along an axis whose tile dimension is `t`.
    pub open spec fn cell_lo(self, level: int, t: int, k: int) -> int {
        k * (t * self.max_w())
    }

    /// Image-space end of tile cell `k` (a numerator over `lvl_w(level)`),
    /// clipped to the image's extent `dim` on that axis.
    pub open spec fn cell_hi(self, level: int, t: int, dim: int, k: int) -> int {
        vstd::math::min((k + 1) * (t * self.max_w()), dim * self.lvl_w(level))
    }

    /// The tile at grid cell `(x, y)` of `level`: its index, its image-space
    /// rectangle (clipped to the image), and the same rectangle reflected
    /// into world space.
    pub open spec fn spec_tile(self, level: int, x: int, y: int) -> Tile {
        let lw = self.lvl_w(level) as i64;
        let x0 = self.cell_lo(level, self.tw(), x) as i64;
        let x1 = self.cell_hi(level, self.tw(), self.max_w(), x) as i64;
        let y0 = self.cell_lo(level, self.th(), y) as i64;
        let y1 = self.cell_hi(level, self.th(), self.max_h(), y) as i64;
        Tile {
            index: TileIndex { x: x as u32, y: y as u32, z: level as u32 },
            image_position: FracRect {
                min: FracPoint { x: Frac { num: x0, den: lw }, y: Frac { num: y0, den: lw } },
                max: FracPoint { x: Frac { num: x1, den: lw }, y: Frac { num: y1, den: lw } },
            },
            world_position: FracRect {
                min: FracPoint { x: Frac { num: x0, den: lw }, y: Frac { num: (-y1) as i64, den: lw } },
                max: FracPoint { x: Frac { num: x1, den: lw }, y: Frac { num: (-y0) as i64, den: lw } },
            },
        }
    }

    /// Compute the tiles of `level` needed to display the viewport between
    /// the two world-space corner points, together with the inclusive column
    /// and row ranges they span.
    ///
    /// The corners are converted to image space, clamped into the image and
    /// ordered; the tiles of every grid cell between the corners' cells are
    /// returned, each with its image rectangle clipped to the image and its
    /// world rectangle. Rows are emitted top to bottom, columns left to
    /// right within a row.
    pub fn get_required_tiles(
        &self,
        level: usize,
        world_pos_min: (i64, i64),
        world_pos_max: (i64, i64),
    ) -> (r: (Vec<Tile>, TileRange, TileRange))
        requires
            self.wf(),
            level < self.levels@.len(),
            world_pos_min.1 != i64::MIN,
            world_pos_max.1 != i64::MIN,
        ensures
            ({
                let wmin = (world_pos_min.0 as int, world_pos_min.1 as int);
                let wmax = (world_pos_max.0 as int, world_pos_max.1 as int);
                let tx0 = self.req_tx0(level as int, wmin, wmax);
                let tx1 = self.req_tx1(level as int, wmin, wmax);
                let ty0 = self.req_ty0(level as int, wmin, wmax);
                let ty1 = self.req_ty1(level as int, wmin, wmax);
                let cols = tx1 - tx0 + 1;
                &&& r.1 == (TileRange { min: tx0 as u32, max: tx1 as u32 })
                &&& r.2 == (TileRange { min: ty0 as u32, max: ty1 as u32 })
                &&& 0 <= tx0 <= tx1 < 0x10_0000
                &&& 0 <= ty0 <= ty1 < 0x10_0000
                &&& r.0@.len() == (ty1 - ty0 + 1) * cols
                &&& forall|i: int|
                    0 <= i < r.0@.len() ==> #[trigger] r.0@[i] == self.spec_tile(
                        level as int,
                        tx0 + (i % cols),
                        ty0 + (i / cols),
                    )
            }),
    {
        let ghost wmin = (world_pos_min.0 as int, world_pos_min.1 as int);
        let ghost wmax = (world_pos_max.0 as int, world_pos_max.1 as int);
        let mw = self.levels[self.levels.len() - 1].width;
        let mh = self.levels[self.levels.len() - 1].height;
        let lw = self.levels[level].width as u64;
        let tw = self.tile_size.width as u64;
        let th = self.tile_size.height as u64;

        // Convert both corners to image space and clamp into the image.
        let p0 = self.world_to_image(world_pos_min);
        let p1 = self.world_to_image(world_pos_max);
        let ax = clamp_coord(p0.0, mw - 1);
        let bx = clamp_coord(p1.0, mw - 1);
        let ay = clamp_coord(p0.1, mh - 1);
        let by = clamp_coord(p1.1, mh - 1);
        let ix0 = if ax <= bx { ax } else { bx };
        let ix1 = if ax <= bx { bx } else { ax };
        let iy0 = if ay <= by { ay } else { by };
        let iy1 = if ay <= by { by } else { ay };
        assert(ix0 == self.view_x0(wmin, wmax) && ix1 == self.view_x1(wmin, wmax));
        assert(iy0 == self.view_y0(wmin, wmax) && iy1 == self.view_y1(wmin, wmax));

        // The inclusive tile index range covering the clamped viewport.
        proof {
            lemma_axis_bounds(self.lvl_w(level as int), self.tw(), self.max_w(), self.max_w());
            lemma_axis_bounds(self.lvl_w(level as int), self.th(), self.max_w(), self.max_h());
        }
        let denx = tw * mw as u64;
        let deny = th * mw as u64;
        proof {
            let lwi = self.lvl_w(level as int);
            assert(0 <= ix0 * lwi <= 0x40_0000_0000 && 0 <= ix1 * lwi <= 0x40_0000_0000
                && 0 <= iy0 * lwi <= 0x40_0000_0000 && 0 <= iy1 * lwi <= 0x40_0000_0000)
                by (nonlinear_arith)
                requires
                    0 <= ix0 < DIM_LIM,
                    0 <= ix1 < DIM_LIM,
                    0 <= iy0 < DIM_LIM,
                    0 <= iy1 < DIM_LIM,
                    0 < lwi <= DIM_LIM,
            ;
        }
        proof {
            let lwi = self.lvl_w(level as int);
            assert(ix0 * lwi <= ix1 * lwi && iy0 * lwi <= iy1 * lwi) by (nonlinear_arith)
                requires
                    ix0 <= ix1,
                    iy0 <= iy1,
                    0 < lwi,
            ;
            lemma_div_is_ordered(ix0 as int * lwi, ix1 as int * lwi, self.tw() * self.max_w());
            lemma_div_is_ordered(iy0 as int * lwi, iy1 as int * lwi, self.th() * self.max_w());
            lemma_div_pos_is_pos(ix0 as int * lwi, self.tw() * self.max_w());
            lemma_div_pos_is_pos(iy0 as int * lwi, self.th() * self.max_w());
        }
        let tx0 = (ix0 * lw) / denx;
        let tx1 = (ix1 * lw) / denx;
        let ty0 = (iy0 * lw) / deny;
        let ty1 = (iy1 * lw) / deny;
        assert(tx0 == self.req_tx0(level as int, wmin, wmax));
        assert(tx1 == self.req_tx1(level as int, wmin, wmax));
        assert(ty0 == self.req_ty0(level as int, wmin, wmax));
        assert(ty1 == self.req_ty1(level as int, wmin, wmax));
        proof {
            lemma_cell_geometry(
                self.lvl_w(level as int), self.tw(), self.max_w(), self.max_w(),
                ix0 as int, ix1 as int, tx0 as int,
            );
            lemma_cell_geometry(
                self.lvl_w(level as int), self.th(), self.max_w(), self.max_h(),
                iy0 as int, iy1 as int, ty0 as int,
            );
        }
        let ghost cols = tx1 as int - tx0 as int + 1;

        let mut tiles: Vec<Tile> = Vec::new();
        let mut y = ty0;
        while y <= ty1
            invariant
                self.wf(),
                level < self.levels@.len(),
                mw == self.levels@.last().width,
                mh == self.levels@.last().height,
                lw == self.lvl_w(level as int),
                tw == self.tw(),
                th == self.th(),
                denx == self.tw() * self.max_w(),
                deny == self.th() * self.max_w(),
                ix0 == self.view_x0(wmin, wmax),
                ix1 == self.view_x1(wmin, wmax),
                iy0 == self.view_y0(wmin, wmax),
                iy1 == self.view_y1(wmin, wmax),
                0 <= ix0 <= ix1 <= self.max_w() - 1,
                0 <= iy0 <= iy1 <= self.max_h() - 1,
                tx0 == self.req_tx0(level as int, wmin, wmax),
                tx1 == self.req_tx1(level as int, wmin, wmax),
                ty0 == self.req_ty0(level as int, wmin, wmax),
                ty1 == self.req_ty1(level as int, wmin, wmax),
                tx0 <= tx1 <= ix1,
                ty0 <= ty1 <= iy1,
                cols == tx1 as int - tx0 as int + 1,
                ty0 <= y <= ty1 + 1,
                tiles@.len() == (y - ty0) * cols,
                forall|i: int|
                    0 <= i < tiles@.len() ==> #[trigger] tiles@[i] == self.spec_tile(
                        level as int,
                        tx0 + (i % cols),
                        ty0 + (i / cols),
                    ),
            decreases ty1 + 1 - y,
        {
            proof {
                lemma_cell_geometry(
                    self.lvl_w(level as int), self.th(), self.max_w(), self.max_h(),
                    iy0 as int, iy1 as int, y as int,
                );
            }
            let y0n = y * deny;
            let y1n = if (y + 1) * deny <= mh as u64 * lw {
                (y + 1) * deny
            } else {
                mh as u64 * lw
            };
            assert(y0n == self.cell_lo(level as int, self.th(), y as int));
            assert(y1n == self.cell_hi(level as int, self.th(), self.max_h(), y as int));

            let mut x = tx0;
            while x <= tx1
                invariant
                    self.wf(),
                    level < self.levels@.len(),
                    mw == self.levels@.last().width,
                    mh == self.levels@.last().height,
                    lw == self.lvl_w(level as int),
                    tw == self.tw(),
                    th == self.th(),
                    denx == self.tw() * self.max_w(),
                    deny == self.th() * self.max_w(),
                    0 <= ix0 <= ix1 <= self.max_w() - 1,
                    0 <= iy0 <= iy1 <= self.max_h() - 1,
                    tx0 == self.req_tx0(level as int, wmin, wmax),
                    tx1 == self.req_tx1(level as int, wmin, wmax),
                    ty0 == self.req_ty0(level as int, wmin, wmax),
                    ty1 == self.req_ty1(level as int, wmin, wmax),
                    ix0 == self.view_x0(wmin, wmax),
                    ix1 == self.view_x1(wmin, wmax),
                    iy0 == self.view_y0(wmin, wmax),
                    iy1 == self.view_y1(wmin, wmax),
                    tx0 <= tx1 <= ix1,
                    ty0 <= y <= ty1 <= iy1,
                    cols == tx1 as int - tx0 as int + 1,
                    tx0 <= x <= tx1 + 1,
                    y0n == self.cell_lo(level as int, self.th(), y as int),
                    y1n == self.cell_hi(level as int, self.th(), self.max_h(), y as int),
                    y0n + lw <= y1n <= 0x40_0000_0000,
                    tiles@.len() == (y - ty0) * cols + (x - tx0),
                    forall|i: int|
                        0 <= i < tiles@.len() ==> #[trigger] tiles@[i] == self.spec_tile(
                            level as int,
                            tx0 + (i % cols),
                            ty0 + (i / cols),
                        ),
                decreases tx1 + 1 - x,
            {
                proof {
                    lemma_cell_geometry(
                        self.lvl_w(level as int), self.tw(), self.max_w(), self.max_w(),
                        ix0 as int, ix1 as int, x as int,
                    );
                }
                let x0n = x * denx;
                let x1n = if (x + 1) * denx <= mw as u64 * lw {
                    (x + 1) * denx
                } else {
                    mw as u64 * lw
                };
                assert(x0n == self.cell_lo(level as int, self.tw(), x as int));
                assert(x1n == self.cell_hi(level as int, self.tw(), self.max_w(), x as int));

                let tile_index = TileIndex::new(x as u32, y as u32, level as u32);
                let image_position = FracRect {
                    min: FracPoint {
                        x: Frac { num: x0n as i64, den: lw as i64 },
                        y: Frac { num: y0n as i64, den: lw as i64 },
                    },
                    max: FracPoint {
                        x: Frac { num: x1n as i64, den: lw as i64 },
                        y: Frac { num: y1n as i64, den: lw as i64 },
                    },
                };

                // Guard against degenerate slivers at the image edge; the
                // clamp to the last pixel keeps every cell in range at least
                // one image pixel wide, so no required tile is discarded.
                if 2 * (x1n - x0n) > lw && 2 * (y1n - y0n) > lw {
                    let world_position = FracRect {
                        min: FracPoint {
                            x: Frac { num: x0n as i64, den: lw as i64 },
                            y: Frac { num: -(y1n as i64), den: lw as i64 },
                        },
                        max: FracPoint {
                            x: Frac { num: x1n as i64, den: lw as i64 },
                            y: Frac { num: -(y0n as i64), den: lw as i64 },
                        },
                    };
                    let tile = Tile::new(tile_index, image_position, world_position);
                    assert(tile == self.spec_tile(level as int, x as int, y as int));
                    tiles.push(tile);
                    proof {
                        let i0 = (y - ty0) * cols + (x - tx0);
                        lemma_fundamental_div_mod_converse(
                            i0 as int, cols, y as int - ty0 as int, x as int - tx0 as int,
                        );
                    }
                }
                x = x + 1;
            }
            y = y + 1;
            proof {
                assert((y - ty0) * cols == (y - 1 - ty0) * cols + cols) by (nonlinear_arith);
            }
        }
        proof {
            assert(tiles@.len() == (ty1 - ty0 + 1) * cols);
        }
        (tiles, TileRange { min: tx0 as u32, max: tx1 as u32 }, TileRange { min: ty0 as u32, max: ty1 as u32 })
    }
}

impl TiledImage {
    /// What `level_at_from` returns: an index of the level list no smaller
    /// than `i`, every level before it too narrow, and the result itself wide
    /// enough unless it is the last level.
    proof fn lemma_level_at_from_props(self, needed: int, i: int)
        requires
            self.wf(),
            0 <= i < self.levels@.len(),
        ensures
            i <= self.level_at_from(needed, i) < self.levels@.len(),
            forall|j: int|
                i <= j < self.level_at_from(needed, i) ==> needed > self.lvl_w(j),
            needed <= self.lvl_w(self.level_at_from(needed, i)) || self.level_at_from(needed, i)
                == self.levels@.len() - 1,
        decreases self.levels@.len() - i,
    {
        if i == self.levels@.len() - 1 || needed <= self.lvl_w(i) {
        } else {
            self.lemma_level_at_from_props(needed, i + 1);
        }
    }

    /// A smaller width requirement never selects a higher level.
    proof fn lemma_level_at_from_monotonic(self, n1: int, n2: int, i: int)
        requires
            self.wf(),
            n2 <= n1,
            0 <= i < self.levels@.len(),
        ensures
            self.level_at_from(n2, i) <= self.level_at_from(n1, i),
        decreases self.levels@.len() - i,
    {
        if i == self.levels@.len() - 1 {
        } else if n2 <= self.lvl_w(i) {
            self.lemma_level_at_from_props(n1, i);
        } else {
            self.lemma_level_at_from_monotonic(n1, n2, i + 1);
        }
    }

    /// Law (level selection is monotonic): zooming out never selects a finer
    /// level. For zoom scales `s1 <= s2` (as rationals), the level selected
    /// at `s2` is at most the level selected at `s1`; zooming in never yields
    /// a coarser level than zooming out did.
    pub proof fn lemma_level_at_monotonic(self, s1: Frac, s2: Frac)
        requires
            self.wf(),
            s1.wf(),
            s2.wf(),
            s1.num > 0,
            s2.num > 0,
            s1.num * s2.den <= s2.num * s1.den,
        ensures
            self.level_at_spec(s2) <= self.level_at_spec(s1),
    {
        let mw = self.max_w();
        let p1 = s1.num as int;
        let p2 = s2.num as int;
        let d1 = s1.den as int;
        let d2 = s2.den as int;
        let a = mw * d1;
        let b = mw * d2;
        let q2 = b / p2;
        // From s1 <= s2: b * p1 <= a * p2.
        assert(b * p1 <= a * p2) by (nonlinear_arith)
            requires
                p1 * d2 <= p2 * d1,
                mw >= 0,
                a == mw * d1,
                b == mw * d2,
        ;
        // Floor bound of n2 = q2: b >= q2 * p2.
        lemma_remainder_lower(b, p2);
        assert(b >= q2 * p2);
        // Chain the products to a >= q2 * p1.
        assert(a >= q2 * p1) by (nonlinear_arith)
            requires
                b * p1 <= a * p2,
                b >= q2 * p2,
                p1 > 0,
                p2 > 0,
        ;
        // So n1 = a / p1 >= q2 = n2.
        lemma_div_is_ordered(q2 * p1, a, p1);
        lemma_div_multiples_vanish(q2, p1);
        assert((p1 * q2) / p1 == q2);
        assert(q2 * p1 == p1 * q2) by (nonlinear_arith);
        assert(self.needed_width(s1) >= self.needed_width(s2));
        self.lemma_level_at_from_monotonic(self.needed_width(s1), self.needed_width(s2), 0);
    }

    /// Law (coverage): every image-space point of the clamped viewport lies
    /// inside the image rectangle of a required tile, namely the tile of the
    /// grid cell that contains the point. Together with
    /// `lemma_required_tiles_partition` this says the required tiles tile the
    /// clamped viewport exactly: no point is missed and cells meet only at
    /// their shared edges.
    ///
    /// `(px, py)` is an image-space pixel of the clamped viewport; the
    /// inequalities compare `px` and `py` against the tile rectangle's
    /// corners over the common denominator `lvl_w(level)`.
    pub proof fn lemma_required_tiles_cover(
        self,
        level: int,
        wmin: (int, int),
        wmax: (int, int),
        px: int,
        py: int,
    )
        requires
            self.wf(),
            0 <= level < self.levels@.len(),
            self.view_x0(wmin, wmax) <= px <= self.view_x1(wmin, wmax),
            self.view_y0(wmin, wmax) <= py <= self.view_y1(wmin, wmax),
        ensures
            self.req_tx0(level, wmin, wmax) <= self.tile_coord(level, self.tw(), px)
                <= self.req_tx1(level, wmin, wmax),
            self.req_ty0(level, wmin, wmax) <= self.tile_coord(level, self.th(), py)
                <= self.req_ty1(level, wmin, wmax),
            self.cell_lo(level, self.tw(), self.tile_coord(level, self.tw(), px)) <= px
                * self.lvl_w(level),
            px * self.lvl_w(level) <= self.cell_hi(
                level,
                self.tw(),
                self.max_w(),
                self.tile_coord(level, self.tw(), px),
            ),
            self.cell_lo(level, self.th(), self.tile_coord(level, self.th(), py)) <= py
                * self.lvl_w(level),
            py * self.lvl_w(level) <= self.cell_hi(
                level,
                self.th(),
                self.max_h(),
                self.tile_coord(level, self.th(), py),
            ),
    {
        assert(1 <= (self.levels@[level]).width as int <= self.max_w());
        self.lemma_axis_cover(level, self.tw(), self.max_w(), self.view_x0(wmin, wmax),
            self.view_x1(wmin, wmax), px);
        self.lemma_axis_cover(level, self.th(), self.max_h(), self.view_y0(wmin, wmax),
            self.view_y1(wmin, wmax), py);
    }

    /// Coverage along one axis: the cell containing image coordinate `p`
    /// lies in the required range and its rectangle contains `p`.
    proof fn lemma_axis_cover(self, level: int, t: int, dim: int, ilo: int, ihi: int, p: int)
        requires
            self.wf(),
            0 <= level < self.levels@.len(),
            t == self.tw() || t == self.th(),
            1 <= dim <= DIM_LIM,
            0 <= ilo <= p <= ihi <= dim - 1,
        ensures
            self.tile_coord(level, t, ilo) <= self.tile_coord(level, t, p) <= self.tile_coord(
                level,
                t,
                ihi,
            ),
            self.cell_lo(level, t, self.tile_coord(level, t, p)) <= p * self.lvl_w(level),
            p * self.lvl_w(level) <= self.cell_hi(level, t, dim, self.tile_coord(level, t, p)),
    {
        let lw = self.lvl_w(level);
        let mw = self.max_w();
        assert(1 <= (self.levels@[level]).width as int <= mw);
        assert(0 < t * mw && lw <= t * mw) by (nonlinear_arith)
            requires
                1 <= t,
                1 <= lw <= mw,
        ;
        let d = t * mw;
        assert(ilo * lw <= p * lw <= ihi * lw && 0 <= p * lw && p * lw <= (dim - 1) * lw)
            by (nonlinear_arith)
            requires
                0 <= ilo <= p <= ihi <= dim - 1,
                0 < lw,
        ;
        lemma_div_is_ordered(ilo * lw, p * lw, d);
        lemma_div_is_ordered(p * lw, ihi * lw, d);
        let k = (p * lw) / d;
        lemma_div_pos_is_pos(p * lw, d);
        lemma_fundamental_div_mod(p * lw, d);
        lemma_remainder_lower(p * lw, d);
        lemma_remainder_upper(p * lw, d);
        assert(k * d <= p * lw < (k + 1) * d) by (nonlinear_arith)
            requires
                p * lw == d * k + (p * lw) % d,
                0 <= (p * lw) % d < d,
        ;
        assert(k * (t * mw) == k * d);
        assert((dim - 1) * lw < dim * lw) by (nonlinear_arith)
            requires
                0 < lw,
        ;
    }

    /// Law (no overlap, no gap): along either axis, consecutive grid cells
    /// meet exactly at their shared edge. The end of cell `k` never exceeds
    /// the start of cell `k + 1`, and as long as cell `k + 1` starts inside
    /// the image the two coincide, so the union of the required tiles'
    /// rectangles has no interior overlap and no gap.
    pub proof fn lemma_required_tiles_partition(self, level: int, t: int, dim: int, k: int)
        requires
            self.wf(),
            0 <= level < self.levels@.len(),
            t == self.tw() || t == self.th(),
            1 <= dim <= DIM_LIM,
            0 <= k,
        ensures
            self.cell_hi(level, t, dim, k) <= self.cell_lo(level, t, k + 1),
            self.cell_lo(level, t, k + 1) < dim * self.lvl_w(level) ==> self.cell_hi(
                level,
                t,
                dim,
                k,
            ) == self.cell_lo(level, t, k + 1),
    {
        let mw = self.max_w();
        assert((k + 1) * (t * mw) == k * (t * mw) + t * mw) by (nonlinear_arith);
    }
}

impl TiledImage {
    /// The region token of an image request URL: the literal `full` when the
    /// region is the whole image, else `left,top,width,height` in pixels.
    pub open spec fn region_spec(self, left: u32, top: u32, width: u32, height: u32) -> Seq<
        char,
    > {
        if left == 0 && top == 0 && width as int == self.max_w() && height as int
            == self.max_h() {
            "full"@
        } else {
            spec_decimal(left as nat) + ","@ + spec_decimal(top as nat) + ","@ + spec_decimal(
                width as nat,
            ) + ","@ + spec_decimal(height as nat)
        }
    }

    /// The image request URL: endpoint, region, requested size, rotation 0,
    /// default quality, and the negotiated encoding.
    pub open spec fn image_url_spec(
        self,
        left: u32,
        top: u32,
        width: u32,
        height: u32,
        size: Size,
    ) -> Seq<char> {
        self.iiif_endpoint@ + "/"@ + self.region_spec(left, top, width, height) + "/"@
            + spec_decimal(size.width as nat) + ","@ + spec_decimal(size.height as nat)
            + "/0/default."@ + self.image_format.spec_name()
    }

    /// Build the image request URL for the pixel region
    /// `(left, top, width, height)` delivered at `size`. A region equal to
    /// the full image bounds takes the literal region token `full`.
    #[verifier::rlimit(50)]
    pub fn get_image_url(
        &self,
        left: u32,
        top: u32,
        width: u32,
        height: u32,
        size: Size,
    ) -> (r: String)
        requires
            self.levels@.len() >= 1,
        ensures
            r@ == self.image_url_spec(left, top, width, height, size),
    {
        let max_size = self.get_max_size();
        let mut url = self.iiif_endpoint.clone();
        url.append("/");
        if left == 0 && top == 0 && width == max_size.width && height == max_size.height {
            url.append("full");
        } else {
            url.append(u32_to_string(left).as_str());
            url.append(",");
            url.append(u32_to_string(top).as_str());
            url.append(",");
            url.append(u32_to_string(width).as_str());
            url.append(",");
            url.append(u32_to_string(height).as_str());
        }
        url.append("/");
        url.append(u32_to_string(size.width).as_str());
        url.append(",");
        url.append(u32_to_string(size.height).as_str());
        url.append("/0/default.");
        url.append(self.image_format.name());
        proof {
            assert(url@ =~= self.image_url_spec(left, top, width, height, size));
        }
        url
    }

    /// The URL of the image information document of an image service.
    pub fn get_image_info_url(iiif_endpoint: &str) -> (r: String)
        ensures
            r@ == iiif_endpoint@ + "/info.json"@,
    {
        let mut url = String::from_str(iiif_endpoint);
        url.append("/info.json");
        url
    }

    /// Build the request URL for one tile, from its image-space rectangle:
    /// the corners are rounded to whole pixels and delivered at tile size.
    pub fn get_image_tile_url_at(&self, image_position: FracRect) -> (r: String)
        requires
            self.wf(),
            image_position.wf(),
            0 <= image_position.min.x.num,
            0 <= image_position.min.y.num,
            image_position.min.x.num <= DIM_LIM * image_position.min.x.den,
            image_position.min.y.num <= DIM_LIM * image_position.min.y.den,
            0 <= image_position.max.x.num <= DIM_LIM * image_position.max.x.den,
            0 <= image_position.max.y.num <= DIM_LIM * image_position.max.y.den,
        ensures
            r@ == self.image_url_spec(
                rect_left_px(image_position) as u32,
                rect_top_px(image_position) as u32,
                rect_width_px(image_position) as u32,
                rect_height_px(image_position) as u32,
                self.tile_size,
            ),
    {
        proof {
            lemma_round_le(image_position.min.x, DIM_LIM as int);
            lemma_round_le(image_position.min.y, DIM_LIM as int);
        }
        let left = image_position.min.x.round_to_u32();
        let top = image_position.min.y.round_to_u32();
        let width = round_extent(image_position.min.x, image_position.max.x, left);
        let height = round_extent(image_position.min.y, image_position.max.y, top);
        self.get_image_url(left, top, width, height, self.tile_size)
    }
}

/// Rounded left edge of an image-space rectangle, in whole pixels.
pub open spec fn rect_left_px(p: FracRect) -> int {
    p.min.x.spec_round()
}

/// Rounded top edge, in whole pixels.
pub open spec fn rect_top_px(p: FracRect) -> int {
    p.min.y.spec_round()
}

/// Rounded extent from the rounded start `r` to the end `hi`: zero when the
/// rounded start already passed the end.
pub open spec fn extent_px(hi: Frac, r: int) -> int {
    if hi.num - r * hi.den < 0 {
        0
    } else {
        (Frac { num: (hi.num - r * hi.den) as i64, den: hi.den }).spec_round()
    }
}

/// Rounded width of an image-space rectangle, in whole pixels.
pub open spec fn rect_width_px(p: FracRect) -> int {
    extent_px(p.max.x, p.min.x.spec_round())
}

/// Rounded height, in whole pixels.
pub open spec fn rect_height_px(p: FracRect) -> int {
    extent_px(p.max.y, p.min.y.spec_round())
}

/// The pixel extent from the rounded coordinate `r` of `lo` to `hi`.
fn round_extent(lo: Frac, hi: Frac, r: u32) -> (e: u32)
    requires
        lo.wf(),
        hi.wf(),
        0 <= lo.num,
        r == lo.spec_round(),
        r <= DIM_LIM + 1,
        0 <= hi.num <= DIM_LIM * hi.den,
    ensures
        e == extent_px(hi, r as int),
{
    proof {
        assert(0 <= r * hi.den <= 0x200_0000_0000
            && DIM_LIM * hi.den <= crate::frac::NUM_LIM) by (nonlinear_arith)
            requires
                0 <= r <= DIM_LIM + 1,
                0 < hi.den <= DEN_LIM,
        ;
    }
    let shifted = hi.num - (r as i64) * hi.den;
    if shifted < 0 {
        0
    } else {
        let f = Frac { num: shifted, den: hi.den };
        proof {
            lemma_round_le(f, DIM_LIM as int);
        }
        f.round_to_u32()
    }
}

impl TiledImage {
    /// The image's full extent as a rectangle in world space: the top edge at
    /// world `y == 0`, the image extending downward into negative `y`.
    pub fn get_world_max_size_rect(&self) -> (r: FracRect)
        requires
            self.wf(),
        ensures
            r.min == (FracPoint { x: Frac { num: 0, den: 1 }, y: Frac { num: -self.max_h() as i64, den: 1 } }),
            r.max == (FracPoint { x: Frac { num: self.max_w() as i64, den: 1 }, y: Frac { num: 0, den: 1 } }),
    {
        let max_size = self.get_max_size();
        FracRect {
            min: FracPoint {
                x: Frac { num: 0, den: 1 },
                y: Frac { num: -(max_size.height as i64), den: 1 },
            },
            max: FracPoint {
                x: Frac { num: max_size.width as i64, den: 1 },
                y: Frac { num: 0, den: 1 },
            },
        }
    }

    /// The image's full extent as a rectangle in image space.
    pub fn get_image_max_size_rect(&self) -> (r: FracRect)
        requires
            self.wf(),
        ensures
            r.min == (FracPoint { x: Frac { num: 0, den: 1 }, y: Frac { num: 0, den: 1 } }),
            r.max == (FracPoint { x: Frac { num: self.max_w() as i64, den: 1 }, y: Frac { num: self.max_h() as i64, den: 1 } }),
    {
        let max_size = self.get_max_size();
        FracRect {
            min: FracPoint { x: Frac { num: 0, den: 1 }, y: Frac { num: 0, den: 1 } },
            max: FracPoint {
                x: Frac { num: max_size.width as i64, den: 1 },
                y: Frac { num: max_size.height as i64, den: 1 },
            },
        }
    }

    /// The thumbnail size chosen for a requested extent `size`: the image
    /// scaled so its larger side is `size` when the service can deliver any
    /// width and height, else the first offered whole-image size with more
    /// pixels than `size * size`, or the first offered size when none has.
    pub open spec fn thumbnail_size_spec(self, size: u32) -> Size {
        if self.supported_features@.contains(IiifFeature::SizeByWh) {
            let m = vstd::math::max(self.max_w(), self.max_h());
            Size {
                width: ((size * self.max_w()) / m) as u32,
                height: ((size * self.max_h()) / m) as u32,
            }
        } else {
            first_fitting_size(self.optional_sizes@, size, 0)
        }
    }

    /// The URL and pixel size of a whole-image thumbnail of extent `size`.
    pub fn get_image_thumbnail(&self, size: u32) -> (r: (String, Size))
        requires
            self.wf(),
            size <= DIM_LIM,
            !self.supported_features@.contains(IiifFeature::SizeByWh)
                ==> self.optional_sizes@.len() > 0,
        ensures
            r.1 == self.thumbnail_size_spec(size),
            r.0@ == self.image_url_spec(
                0,
                0,
                self.levels@.last().width,
                self.levels@.last().height,
                self.thumbnail_size_spec(size),
            ),
    {
        let max_size = self.get_max_size();
        let thumbnail_size = if self.supports(IiifFeature::SizeByWh) {
            let m = if max_size.width >= max_size.height {
                max_size.width as u64
            } else {
                max_size.height as u64
            };
            proof {
                assert(0 <= size * self.max_w() <= 0x40_0000_0000
                    && 0 <= size * self.max_h() <= 0x40_0000_0000) by (nonlinear_arith)
                    requires
                        0 <= size <= DIM_LIM,
                        0 < self.max_w() <= DIM_LIM,
                        0 < self.max_h() <= DIM_LIM,
                ;
                lemma_scaled_le(size as int, self.max_w(), vstd::math::max(self.max_w(), self.max_h()));
                lemma_scaled_le(size as int, self.max_h(), vstd::math::max(self.max_w(), self.max_h()));
            }
            let w = (size as u64 * max_size.width as u64) / m;
            let h = (size as u64 * max_size.height as u64) / m;
            Size { width: w as u32, height: h as u32 }
        } else {
            first_fitting(&self.optional_sizes, size)
        };
        let url = self.get_image_url(0, 0, max_size.width, max_size.height, thumbnail_size);
        (url, thumbnail_size)
    }
}

/// The first size of the list, from index `i` on, with more pixels than
/// `size * size`; the first size of the list when none has.
pub open spec fn first_fitting_size(sizes: Seq<Size>, size: u32, i: int) -> Size
    decreases sizes.len() - i when 0 <= i <= sizes.len() && sizes.len() > 0
{
    if i >= sizes.len() {
        sizes[0]
    } else if sizes[i].width * sizes[i].height > size * size {
        sizes[i]
    } else {
        first_fitting_size(sizes, size, i + 1)
    }
}

/// The first of the sizes with more pixels than `size * size`, or the first
/// of the list when none has.
fn first_fitting(sizes: &Vec<Size>, size: u32) -> (r: Size)
    requires
        sizes@.len() > 0,
    ensures
        r == first_fitting_size(sizes@, size, 0),
{
    let mut i: usize = 0;
    while i < sizes.len()
        invariant
            sizes@.len() > 0,
            0 <= i <= sizes@.len(),
            first_fitting_size(sizes@, size, 0) == first_fitting_size(sizes@, size, i as int),
        decreases sizes@.len() - i,
    {
        let s = sizes[i];
        proof {
            assert(0 <= s.width * s.height <= 0xFFFF_FFFE_0000_0001
                && 0 <= size * size <= 0xFFFF_FFFE_0000_0001) by (nonlinear_arith)
                requires
                    0 <= s.width <= 0xFFFF_FFFF,
                    0 <= s.height <= 0xFFFF_FFFF,
                    0 <= size <= 0xFFFF_FFFF,
            ;
        }
        if s.width as u64 * s.height as u64 > size as u64 * size as u64 {
            return s;
        }
        i = i + 1;
    }
    sizes[0]
}

/// A scaled-down dimension stays within `u32`: `(s * d) / m <= s` when
/// `d <= m`.
proof fn lemma_scaled_le(s: int, d: int, m: int)
    requires
        0 <= s,
        0 < d <= m,
    ensures
        0 <= (s * d) / m <= s,
{
    lemma_div_pos_is_pos(s * d, m);
    assert(0 <= s * d <= s * m) by (nonlinear_arith)
        requires
            0 <= s,
            0 < d <= m,
    ;
    lemma_div_is_ordered(s * d, s * m, m);
    lemma_div_multiples_vanish(s, m);
    assert(s * m == m * s) by (nonlinear_arith);
}

impl TiledImage {
    /// Build the pyramid descriptor from an expanded image information
    /// document.
    ///
    /// Tiling needs both pixel-region addressing and explicit sizing; when
    /// the service supports both, the declared tile size and the per-level
    /// scaling sizes are used, else the engine degrades to a single level
    /// equal to the full image. Succeeds exactly when the document names an
    /// image format, every tile scale factor is positive, and the resulting
    /// dimensions lie within what the tile geometry accepts; the missing
    /// format is a missing-info error naming the endpoint, the other two
    /// failures are format errors.
    pub fn from_image_info(info: crate::iiif::image::ImageInfo, iiif_endpoint: &str) -> (r: Result<
        TiledImage,
        IiifError,
    >)
        ensures
            ({
                let buildable = info.first_format_spec() is Some && (info.spec_tiled()
                    ==> info.factors_ok()) && pyramid_wf(
                    info.built_levels(),
                    info.built_tile_size(),
                );
                match r {
                    Result::Ok(img) => {
                        &&& buildable
                        &&& img.wf()
                        &&& img.iiif_endpoint@ == iiif_endpoint@
                        &&& info.first_format_spec() matches Option::Some(fmt) && img.image_format
                            == fmt
                        &&& forall|f: IiifFeature|
                            img.supported_features@.contains(f) <==> info.spec_has_feature(f)
                        &&& img.optional_sizes@ == crate::iiif::scaling::sort_by_area_spec(
                            crate::iiif::scaling::optional_sizes_base(
                                info.raw_width(),
                                info.raw_height(),
                                info.raw_sizes(),
                            ),
                        )
                        &&& img.levels@ == info.built_levels()
                        &&& img.tile_size == info.built_tile_size()
                    },
                    Result::Err(e) => {
                        &&& !buildable
                        &&& info.first_format_spec() is None ==> (e
                            matches IiifError::IiifMissingInfo(m) && m@
                            == "missing image format in '"@ + iiif_endpoint@ + "'"@)
                        &&& info.first_format_spec() is Some ==> e
                            matches IiifError::IiifFormatError(_)
                    },
                }
            }),
    {
        let supported_features = info.get_supported_features();

        // The image format is the first format of the first profile.
        let image_format = match info.first_format() {
            Option::Some(f) => f,
            Option::None => {
                let mut msg = String::from_str("missing image format in '");
                msg.append(iiif_endpoint);
                msg.append("'");
                return Result::Err(IiifError::IiifMissingInfo(msg));
            },
        };

        // With pixel regions and explicit sizing the image is tiled;
        // otherwise only the whole image can be fetched, as one level.
        let tile_size: Size;
        let levels: Vec<Size>;
        let tiled = has_feature(&supported_features, IiifFeature::RegionByPx) && has_feature(
            &supported_features,
            IiifFeature::SizeByWh,
        );
        assert(tiled == info.spec_tiled());
        if tiled {
            if !factors_positive(&info) {
                return Result::Err(
                    IiifError::IiifFormatError(String::from_str("tile scale factor is zero")),
                );
            }
            tile_size = info.get_tile_size();
            levels = info.get_tile_scaling_sizes();
        } else {
            tile_size = Size { width: info.get_width(), height: info.get_height() };
            let mut one: Vec<Size> = Vec::new();
            one.push(tile_size);
            proof {
                assert(one@ =~= seq![Size { width: info.raw_width(), height: info.raw_height() }]);
            }
            levels = one;
        }
        assert(levels@ == info.built_levels() && tile_size == info.built_tile_size());

        let optional_sizes = info.get_optional_sizes();

        // Reject dimensions the tile geometry cannot carry.
        if !pyramid_fits(&levels, tile_size) {
            return Result::Err(
                IiifError::IiifFormatError(
                    String::from_str("image or tile dimensions out of range"),
                ),
            );
        }

        Result::Ok(
            TiledImage {
                iiif_endpoint: String::from_str(iiif_endpoint),
                tile_size,
                levels,
                image_format,
                supported_features,
                optional_sizes,
            },
        )
    }
}

impl TiledImage {
    /// The camera placement that fits the image to a viewport when the image
    /// first appears: the zoom scale that shows the whole image (the larger
    /// of the two per-axis ratios), the level that scale selects, and the
    /// world translation of the image's centre in micro units.
    pub fn initial_camera_view(&self, viewport: (u32, u32)) -> (r: (Frac, usize, (i64, i64)))
        requires
            self.wf(),
            1 <= viewport.0 <= DIM_LIM,
            1 <= viewport.1 <= DIM_LIM,
        ensures
            r.0 == (Frac { num: self.max_w() as i64, den: viewport.0 as i64 }).max_spec(
                Frac { num: self.max_h() as i64, den: viewport.1 as i64 },
            ),
            r.1 == self.level_at_spec(r.0),
            r.2.0 == self.max_w() * 500_000,
            r.2.1 == -self.max_h() * 500_000,
    {
        let max_size = self.get_max_size();
        let zoom_w = Frac { num: max_size.width as i64, den: viewport.0 as i64 };
        let zoom_h = Frac { num: max_size.height as i64, den: viewport.1 as i64 };
        let zoom = zoom_w.max(zoom_h);
        let level = self.get_level_at(zoom);
        let translation = (
            max_size.width as i64 * 500_000,
            -(max_size.height as i64 * 500_000),
        );
        (zoom, level, translation)
    }
}

/// Whether the list holds the feature.
fn has_feature(features: &Vec<IiifFeature>, f: IiifFeature) -> (r: bool)
    ensures
        r == features@.contains(f),
{
    let mut i: usize = 0;
    while i < features.len()
        invariant
            i <= features@.len(),
            forall|j: int| 0 <= j < i ==> features@[j] != f,
        decreases features@.len() - i,
    {
        if features[i] == f {
            return true;
        }
        i = i + 1;
    }
    false
}

/// Whether every scale factor of the document's first tile is positive.
fn factors_positive(info: &crate::iiif::image::ImageInfo) -> (r: bool)
    ensures
        r == info.factors_ok(),
{
    let tiles = match info {
        crate::iiif::image::ImageInfo::Version3(im) => &im.iiif_image_info.tiles,
        crate::iiif::image::ImageInfo::Version2(im) => &im.iiif_image_info.tiles,
    };
    proof {
        assert(*tiles == info.raw_tiles());
    }
    match tiles {
        Option::Some(ts) => {
            if ts.len() == 0 {
                return true;
            }
            let factors = &ts[0].scale_factors;
            let mut i: usize = 0;
            while i < factors.len()
                invariant
                    info.raw_tiles() matches Option::Some(ts0) && ts0@ == ts@ && ts@.len() > 0,
                    factors@ == ts@[0].scale_factors@,
                    i <= factors@.len(),
                    forall|j: int| 0 <= j < i ==> (#[trigger] factors@[j]) >= 1,
                decreases factors@.len() - i,
            {
                if factors[i] == 0 {
                    proof {
                        assert(ts@[0].scale_factors@[i as int] == 0);
                    }
                    return false;
                }
                i = i + 1;
            }
            true
        },
        Option::None => true,
    }
}

/// Whether the levels and tile size lie within what the tile geometry
/// accepts: see `TiledImage::wf`.
fn pyramid_fits(levels: &Vec<Size>, tile_size: Size) -> (r: bool)
    ensures
        r == pyramid_wf(levels@, tile_size),
{
    if levels.len() == 0 || levels.len() > DIM_LIM as usize {
        return false;
    }
    let max_w = levels[levels.len() - 1].width;
    let max_h = levels[levels.len() - 1].height;
    if max_w > DIM_LIM || max_h > DIM_LIM {
        return false;
    }
    if tile_size.width < 1 || tile_size.width > DIM_LIM || tile_size.height < 1 || tile_size.height
        > DIM_LIM {
        return false;
    }
    let mut i: usize = 0;
    while i < levels.len()
        invariant
            i <= levels@.len(),
            levels@.len() >= 1,
            max_w == levels@.last().width,
            forall|j: int|
                0 <= j < i ==> 1 <= (#[trigger] levels@[j]).width as int <= max_w as int,
            forall|j: int|
                0 <= j < i ==> 1 <= (#[trigger] levels@[j]).height as int <= DIM_LIM as int,
        decreases levels@.len() - i,
    {
        let l = levels[i];
        if l.width < 1 || l.width > max_w || l.height < 1 || l.height > DIM_LIM {
            return false;
        }
        i = i + 1;
    }
    true
}

/// A well-formed pyramid: at least one level, every dimension at least one
/// pixel and within `DIM_LIM`, and no level wider than the full resolution.
pub open spec fn pyramid_wf(levels: Seq<Size>, tile_size: Size) -> bool {
    &&& 1 <= levels.len() <= DIM_LIM
    &&& levels.last().width <= DIM_LIM
    &&& levels.last().height <= DIM_LIM
    &&& forall|i: int|
        0 <= i < levels.len() ==> 1 <= (#[trigger] levels[i]).width as int
            <= levels.last().width as int
    &&& forall|i: int|
        0 <= i < levels.len() ==> 1 <= (#[trigger] levels[i]).height as int <= DIM_LIM
    &&& 1 <= tile_size.width as int <= DIM_LIM
    &&& 1 <= tile_size.height as int <= DIM_LIM
}

/// `v` clamped into `[0, hi]`.
pub open spec fn clamp_to(v: int, hi: int) -> int {
    if v < 0 {
        0
    } else if v > hi {
        hi
    } else {
        v
    }
}

fn clamp_coord(v: i64, hi: u32) -> (r: u64)
    ensures
        r == clamp_to(v as int, hi as int),
{
    if v < 0 {
        0
    } else if v > hi as i64 {
        hi as u64
    } else {
        v as u64
    }
}

/// Bounds of the per-axis products of the tile geometry.
proof fn lemma_axis_bounds(lw: int, t: int, mw: int, dim: int)
    requires
        1 <= lw <= mw <= DIM_LIM,
        1 <= t <= DIM_LIM,
        1 <= dim <= DIM_LIM,
    ensures
        0 < t * mw <= 0x40_0000_0000,
        0 < dim * lw <= 0x40_0000_0000,
{
    assert(0 < t * mw <= 0x40_0000_0000) by (nonlinear_arith)
        requires
            1 <= t <= DIM_LIM,
            1 <= mw <= DIM_LIM,
    ;
    assert(0 < dim * lw <= 0x40_0000_0000) by (nonlinear_arith)
        requires
            1 <= dim <= DIM_LIM,
            1 <= lw <= DIM_LIM,
    ;
}

/// The arithmetic facts about one tile cell along one axis: cell `k` of a
/// level with width `lw`, tile dimension `t`, full resolution `mw`, image
/// extent `dim` on this axis, and a clamped viewport `[ilo, ihi]` whose cell
/// range ends at `(ihi * lw) / (t * mw)`.
proof fn lemma_cell_geometry(lw: int, t: int, mw: int, dim: int, ilo: int, ihi: int, k: int)
    requires
        1 <= lw <= mw <= DIM_LIM,
        1 <= t <= DIM_LIM,
        1 <= dim <= DIM_LIM,
        0 <= ilo <= ihi <= dim - 1,
        0 <= k <= (ihi * lw) / (t * mw),
    ensures
        0 <= (ilo * lw) / (t * mw) <= (ihi * lw) / (t * mw) <= ihi,
        k * (t * mw) <= ihi * lw,
        k < (ihi * lw) / (t * mw) ==> (k + 1) * (t * mw) <= ihi * lw,
        (k + 1) * (t * mw) <= ihi * lw + t * mw,
        k * (t * mw) < dim * lw,
        vstd::math::min((k + 1) * (t * mw), dim * lw) - k * (t * mw) >= lw,
        0 <= k * (t * mw),
        ihi * lw <= 0x40_0000_0000,
        0 < dim * lw <= 0x40_0000_0000,
        0 < t * mw <= 0x40_0000_0000,
{
    assert(0 < dim * lw <= 0x40_0000_0000) by (nonlinear_arith)
        requires
            1 <= dim <= DIM_LIM,
            1 <= lw <= DIM_LIM,
    ;
    assert(0 < t * mw && mw <= t * mw && t * mw <= 0x40_0000_0000) by (nonlinear_arith)
        requires
            1 <= t <= DIM_LIM,
            1 <= mw <= DIM_LIM,
    ;
    let d = t * mw;
    assert(0 <= ilo * lw <= ihi * lw <= (dim - 1) * lw) by (nonlinear_arith)
        requires
            0 <= ilo <= ihi <= dim - 1,
            0 < lw,
    ;
    assert(ihi * lw <= 0x40_0000_0000) by (nonlinear_arith)
        requires
            0 <= ihi < DIM_LIM,
            0 < lw <= DIM_LIM,
    ;
    let khi = (ihi * lw) / d;
    // The cell range is ordered and no coordinate exceeds the pixel range.
    lemma_div_is_ordered(ilo * lw, ihi * lw, d);
    lemma_div_pos_is_pos(ilo * lw, d);
    assert(ihi * lw <= ihi * d) by (nonlinear_arith)
        requires
            lw <= d,
            0 <= ihi,
    ;
    lemma_div_is_ordered(ihi * lw, ihi * d, d);
    lemma_div_multiples_vanish(ihi, d);
    assert(khi <= ihi);
    // Floor bounds of the cell range's end.
    lemma_fundamental_div_mod(ihi * lw, d);
    lemma_remainder_lower(ihi * lw, d);
    lemma_remainder_upper(ihi * lw, d);
    assert(khi * d <= ihi * lw < (khi + 1) * d) by (nonlinear_arith)
        requires
            ihi * lw == d * khi + (ihi * lw) % d,
            0 <= (ihi * lw) % d < d,
    ;
    // Cells up to the end of the range start inside the clamped viewport.
    assert(k * d <= khi * d && (k + 1) * d <= (khi + 1) * d) by (nonlinear_arith)
        requires
            k <= khi,
            0 < d,
    ;
    assert(k < khi ==> (k + 1) * d <= khi * d) by (nonlinear_arith)
        requires
            k <= khi,
            0 < d,
    ;
    assert((k + 1) * d == k * d + d) by (nonlinear_arith);
    // Every cell of the range starts strictly inside the image.
    assert(k * d <= ihi * lw);
    assert(ihi * lw <= (dim - 1) * lw);
    assert((dim - 1) * lw + lw == dim * lw) by (nonlinear_arith);
    assert(k * d < dim * lw);
    // Each cell, clipped to the image, is at least one image pixel wide:
    // unclipped it is `t * mw >= lw` wide, and the clipped last cell still
    // reaches from at most `(dim - 1) * lw` to `dim * lw`.
    if (k + 1) * d <= dim * lw {
        assert(vstd::math::min((k + 1) * d, dim * lw) - k * d == d);
        assert(d >= lw);
    } else {
        assert(vstd::math::min((k + 1) * d, dim * lw) - k * d >= lw);
    }
}

/// World space to image space: the vertical axis is reflected.
pub open spec fn world_to_image_spec(x: int, y: int) -> (int, int) {
    (x, -y)
}

/// Image space to world space: the vertical axis is reflected.
pub open spec fn image_to_world_spec(x: int, y: int) -> (int, int) {
    (x, -y)
}

/// Law: converting a world point to image space and back returns the point,
/// exactly; the two transforms are mutual inverses.
pub proof fn lemma_world_image_round_trip(x: int, y: int)
    ensures
        image_to_world_spec(world_to_image_spec(x, y).0, world_to_image_spec(x, y).1) == (x, y),
        world_to_image_spec(image_to_world_spec(x, y).0, image_to_world_spec(x, y).1) == (x, y),
{
}

proof fn lemma_dim_products(p: int, lw: int, t: int, mw: int)
    requires
        -DIM_LIM <= p <= DIM_LIM,
        0 < lw <= DIM_LIM,
        0 < t <= DIM_LIM,
        0 < mw <= DIM_LIM,
    ensures
        -0x40_0000_0000 <= p * lw <= 0x40_0000_0000,
        0 < t * mw <= 0x40_0000_0000,
{
    assert(-0x40_0000_0000 <= p * lw <= 0x40_0000_0000) by (nonlinear_arith)
        requires
            -DIM_LIM <= p <= DIM_LIM,
            0 < lw <= DIM_LIM,
    ;
    assert(0 < t * mw <= 0x40_0000_0000) by (nonlinear_arith)
        requires
            0 < t <= DIM_LIM,
            0 < mw <= DIM_LIM,
    ;
}

} // verus!
