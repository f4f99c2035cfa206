//! A world-space-aware wrapper over the pure tile-grid math.
//!
//! The wrapper adds a per-axis scale to the unit grid: in `Units` space one
//! tile spans one world unit, in `Pixels` space one texel spans one world
//! unit, so a tile spans `pixels_per_tile` of them. Positions here are
//! camera-local: the owning camera adds its own translation.

use vstd::prelude::*;
use vstd::arithmetic::div_mod::lemma_fundamental_div_mod;
use vstd::arithmetic::mul::lemma_mul_is_commutative;
use crate::coords::Fixed2;
use crate::coords::HALF_UNIT;
use crate::coords::POS_LIMIT;
use crate::coords::cam_in_range;
use crate::coords::pos_in_range;
use crate::coords::Index2;
use crate::coords::SPAN_LIMIT;
use crate::coords::SUBUNITS_PER_UNIT;
use crate::coords::Size2;
use crate::coords::floor_div;
use crate::coords::local_in_range;
use crate::sized_grid::SizedGrid;
use crate::sized_grid::TileCenterIterator;
use crate::sized_grid::TilePosIterator;

verus! {

/// How grid-local distances map to world distances.
///
/// `Units`: one tile is one world unit. `Pixels`: one texel is one world
/// unit, so one tile is `pixels_per_tile` world units.
#[derive(Clone, Copy, Debug, PartialEq, Eq, Structural)]
pub enum WorldSpace {
    Units,
    Pixels,
}

/// A fixed-size tile grid together with a world-space scale.
///
/// Every operation requires [`WorldGrid::wf`], which the constructors
/// establish: a nonempty grid, nonzero pixels per tile, and a target
/// resolution (tiles times pixels per tile) that fits in `u32` per axis.
#[derive(Clone, Copy, Debug)]
pub struct WorldGrid {
    pub grid: SizedGrid,
    pub pixels_per_tile: Size2,
    pub world_space: WorldSpace,
}

impl WorldGrid {
    /// The grid is well-formed, pixels per tile is at least one per axis,
    /// and the target resolution fits in `u32` per axis.
    pub open spec fn wf(&self) -> bool {
        &&& self.grid.wf()
        &&& self.pixels_per_tile.x >= 1
        &&& self.pixels_per_tile.y >= 1
        &&& self.grid.tile_count.x * self.pixels_per_tile.x <= u32::MAX
        &&& self.grid.tile_count.y * self.pixels_per_tile.y <= u32::MAX
    }

    /// World units spanned by one tile on the x axis.
    pub open spec fn scale_x(&self) -> int {
        if self.world_space is Units {
            1
        } else {
            self.pixels_per_tile.x as int
        }
    }

    /// World units spanned by one tile on the y axis.
    pub open spec fn scale_y(&self) -> int {
        if self.world_space is Units {
            1
        } else {
            self.pixels_per_tile.y as int
        }
    }

    /// The x coordinate, in world subunits, of the bottom-left corner of
    /// the tile whose index on the x axis is `ix`.
    pub open spec fn local_of_index_x(&self, ix: int) -> int {
        self.grid.local_of_index_x(ix) * self.scale_x()
    }

    /// The y coordinate, in world subunits, of the bottom-left corner of
    /// the tile whose index on the y axis is `iy`.
    pub open spec fn local_of_index_y(&self, iy: int) -> int {
        self.grid.local_of_index_y(iy) * self.scale_y()
    }

    /// The x coordinate, in world subunits, of the center of the tile whose
    /// index on the x axis is `ix`.
    pub open spec fn center_of_index_x(&self, ix: int) -> int {
        self.grid.center_of_index_x(ix) * self.scale_x()
    }

    /// The y coordinate, in world subunits, of the center of the tile whose
    /// index on the y axis is `iy`.
    pub open spec fn center_of_index_y(&self, iy: int) -> int {
        self.grid.center_of_index_y(iy) * self.scale_y()
    }

    /// The index on the x axis of the tile containing a camera-local
    /// position: the floor of the position over the tile's world span,
    /// less the tile offset.
    pub open spec fn index_of_local_x(&self, lx: int) -> int {
        (lx - self.grid.tile_offset_x() * self.scale_x()) / (
        SUBUNITS_PER_UNIT * self.scale_x())
    }

    /// The index on the y axis of the tile containing a camera-local
    /// position.
    pub open spec fn index_of_local_y(&self, ly: int) -> int {
        (ly - self.grid.tile_offset_y() * self.scale_y()) / (
        SUBUNITS_PER_UNIT * self.scale_y())
    }

    /// Create a centered grid in `Units` space.
    ///
    /// Returns `None` exactly when an axis of `tile_count` or of
    /// `pixels_per_tile` is zero.
    pub fn unit_grid(tile_count: Size2, pixels_per_tile: Size2) -> (r: Option<WorldGrid>)
        requires
            tile_count.x * pixels_per_tile.x <= u32::MAX,
            tile_count.y * pixels_per_tile.y <= u32::MAX,
        ensures
            r is Some <==> tile_count.x >= 1 && tile_count.y >= 1 && pixels_per_tile.x >= 1
                && pixels_per_tile.y >= 1,
            r matches Some(g) ==> g.wf() && g.grid.tile_count == tile_count && g.grid.centered
                && g.pixels_per_tile == pixels_per_tile && g.world_space is Units,
    {
        WorldGrid::with_space(tile_count, pixels_per_tile, WorldSpace::Units)
    }

    /// Create a centered grid in `Pixels` space.
    ///
    /// Returns `None` exactly when an axis of `tile_count` or of
    /// `pixels_per_tile` is zero.
    pub fn pixel_grid(tile_count: Size2, pixels_per_tile: Size2) -> (r: Option<WorldGrid>)
        requires
            tile_count.x * pixels_per_tile.x <= u32::MAX,
            tile_count.y * pixels_per_tile.y <= u32::MAX,
        ensures
            r is Some <==> tile_count.x >= 1 && tile_count.y >= 1 && pixels_per_tile.x >= 1
                && pixels_per_tile.y >= 1,
            r matches Some(g) ==> g.wf() && g.grid.tile_count == tile_count && g.grid.centered
                && g.pixels_per_tile == pixels_per_tile && g.world_space is Pixels,
    {
        WorldGrid::with_space(tile_count, pixels_per_tile, WorldSpace::Pixels)
    }

    fn with_space(tile_count: Size2, pixels_per_tile: Size2, world_space: WorldSpace) -> (r: Option<
        WorldGrid,
    >)
        requires
            tile_count.x * pixels_per_tile.x <= u32::MAX,
            tile_count.y * pixels_per_tile.y <= u32::MAX,
        ensures
            r is Some <==> tile_count.x >= 1 && tile_count.y >= 1 && pixels_per_tile.x >= 1
                && pixels_per_tile.y >= 1,
            r matches Some(g) ==> g.wf() && g.grid.tile_count == tile_count && g.grid.centered
                && g.pixels_per_tile == pixels_per_tile && g.world_space == world_space,
    {
        if pixels_per_tile.x == 0 || pixels_per_tile.y == 0 {
            return None;
        }
        match SizedGrid::new(tile_count) {
            Some(grid) => Some(WorldGrid { grid, pixels_per_tile, world_space }),
            None => None,
        }
    }

    /// The factor taking grid-local distances to world distances: one per
    /// axis in `Units` space, pixels per tile in `Pixels` space.
    pub fn world_space_scale(&self) -> (r: Size2)
        requires
            self.wf(),
        ensures
            r.x == self.scale_x() && r.y == self.scale_y(),
            1 <= r.x && 1 <= r.y,
    {
        match self.world_space {
            WorldSpace::Units => Size2 { x: 1, y: 1 },
            WorldSpace::Pixels => self.pixels_per_tile,
        }
    }

    /// The size of one tile in world subunits.
    pub fn tile_size_world(&self) -> (r: Fixed2)
        requires
            self.wf(),
        ensures
            r.x == SUBUNITS_PER_UNIT * self.scale_x(),
            r.y == SUBUNITS_PER_UNIT * self.scale_y(),
    {
        let s: Size2 = self.world_space_scale();
        Fixed2 { x: SUBUNITS_PER_UNIT * (s.x as i64), y: SUBUNITS_PER_UNIT * (s.y as i64) }
    }

    /// Convert a grid-local position to a world position: the position
    /// scaled by the world-space factor, from the camera's position.
    pub fn local_to_world(&self, cam_pos: Fixed2, local: Fixed2) -> (r: Fixed2)
        requires
            self.wf(),
            cam_in_range(cam_pos),
            -POS_LIMIT <= local.x * self.scale_x() <= POS_LIMIT,
            -POS_LIMIT <= local.y * self.scale_y() <= POS_LIMIT,
        ensures
            r.x == local.x * self.scale_x() + cam_pos.x,
            r.y == local.y * self.scale_y() + cam_pos.y,
    {
        let s: Size2 = self.world_space_scale();
        Fixed2 {
            x: local.x * (s.x as i64) + cam_pos.x,
            y: local.y * (s.y as i64) + cam_pos.y,
        }
    }

    /// Convert a world position to a grid-local position: its offset from
    /// the camera, floored over the world-space factor to a subunit.
    pub fn world_to_local(&self, cam_pos: Fixed2, world_pos: Fixed2) -> (r: Fixed2)
        requires
            self.wf(),
            cam_in_range(cam_pos),
            pos_in_range(world_pos),
        ensures
            r.x == (world_pos.x - cam_pos.x) / self.scale_x(),
            r.y == (world_pos.y - cam_pos.y) / self.scale_y(),
    {
        let s: Size2 = self.world_space_scale();
        let rx: i64 = floor_div(world_pos.x - cam_pos.x, s.x as i64);
        let ry: i64 = floor_div(world_pos.y - cam_pos.y, s.y as i64);
        Fixed2 { x: rx, y: ry }
    }

    /// Convert a camera-local position to the index of the tile containing
    /// it. Never fails: positions outside the grid give out-of-bounds
    /// indices, which callers test separately.
    pub fn pos_to_index(&self, local: Fixed2) -> (r: Index2)
        requires
            self.wf(),
            local_in_range(local),
        ensures
            r.x == self.index_of_local_x(local.x as int),
            r.y == self.index_of_local_y(local.y as int),
    {
        let s: Size2 = self.world_space_scale();
        proof {
            lemma_scaled_offset_bound(self.grid.tile_offset_x(), self.scale_x());
            lemma_scaled_offset_bound(self.grid.tile_offset_y(), self.scale_y());
        }
        let off_x: i64 = (self.grid.center_offset.x - HALF_UNIT) * (s.x as i64);
        let off_y: i64 = (self.grid.center_offset.y - HALF_UNIT) * (s.y as i64);
        let ix: i64 = floor_div(local.x - off_x, SUBUNITS_PER_UNIT * (s.x as i64));
        let iy: i64 = floor_div(local.y - off_y, SUBUNITS_PER_UNIT * (s.y as i64));
        Index2 { x: ix, y: iy }
    }

    /// Convert a tile index to the camera-local position of the tile's
    /// bottom-left corner, or `None` when the index is out of bounds.
    pub fn index_to_pos(&self, index: Index2) -> (r: Option<Fixed2>)
        requires
            self.wf(),
        ensures
            r is Some <==> self.grid.in_bounds(index.x as int, index.y as int),
            r matches Some(p) ==> p.x == self.local_of_index_x(index.x as int) && p.y
                == self.local_of_index_y(index.y as int),
            r matches Some(p) ==> -SPAN_LIMIT <= p.x <= SPAN_LIMIT && -SPAN_LIMIT <= p.y
                <= SPAN_LIMIT,
    {
        if !self.grid.tile_in_bounds(index) {
            return None;
        }
        Some(self.index_to_pos_unchecked(index))
    }

    /// Convert a tile index to the camera-local position of the tile's
    /// center, or `None` when the index is out of bounds.
    pub fn index_to_tile_center(&self, index: Index2) -> (r: Option<Fixed2>)
        requires
            self.wf(),
        ensures
            r is Some <==> self.grid.in_bounds(index.x as int, index.y as int),
            r matches Some(p) ==> p.x == self.center_of_index_x(index.x as int) && p.y
                == self.center_of_index_y(index.y as int),
            r matches Some(p) ==> -SPAN_LIMIT <= p.x <= SPAN_LIMIT && -SPAN_LIMIT <= p.y
                <= SPAN_LIMIT,
    {
        if !self.grid.tile_in_bounds(index) {
            return None;
        }
        let s: Size2 = self.world_space_scale();
        proof {
            self.lemma_in_bounds_index_scales(index);
        }
        let x: i64 = (index.x * SUBUNITS_PER_UNIT + self.grid.center_offset.x) * (s.x as i64);
        let y: i64 = (index.y * SUBUNITS_PER_UNIT + self.grid.center_offset.y) * (s.y as i64);
        Some(Fixed2 { x, y })
    }

    /// Convert a camera-local position to the camera-local position of the
    /// bottom-left corner of the tile containing it. Never fails.
    pub fn pos_to_tile_pos(&self, local: Fixed2) -> (r: Fixed2)
        requires
            self.wf(),
            local_in_range(local),
        ensures
            r.x == self.local_of_index_x(self.index_of_local_x(local.x as int)),
            r.y == self.local_of_index_y(self.index_of_local_y(local.y as int)),
            local.x - SUBUNITS_PER_UNIT * self.scale_x() < r.x <= local.x,
            local.y - SUBUNITS_PER_UNIT * self.scale_y() < r.y <= local.y,
    {
        let index: Index2 = self.pos_to_index(local);
        let s: Size2 = self.world_space_scale();
        proof {
            lemma_scaled_offset_bound(self.grid.tile_offset_x(), self.scale_x());
            lemma_scaled_offset_bound(self.grid.tile_offset_y(), self.scale_y());
            lemma_floor_scale_back(
                local.x as int,
                self.grid.tile_offset_x() * self.scale_x(),
                SUBUNITS_PER_UNIT * self.scale_x(),
            );
            lemma_floor_scale_back(
                local.y as int,
                self.grid.tile_offset_y() * self.scale_y(),
                SUBUNITS_PER_UNIT * self.scale_y(),
            );
            lemma_unscale_corner(self.grid.tile_offset_x(), self.scale_x(), index.x as int);
            lemma_unscale_corner(self.grid.tile_offset_y(), self.scale_y(), index.y as int);
        }
        let off_x: i64 = (self.grid.center_offset.x - HALF_UNIT) * (s.x as i64);
        let off_y: i64 = (self.grid.center_offset.y - HALF_UNIT) * (s.y as i64);
        let x: i64 = index.x * (SUBUNITS_PER_UNIT * (s.x as i64)) + off_x;
        let y: i64 = index.y * (SUBUNITS_PER_UNIT * (s.y as i64)) + off_y;
        Fixed2 { x, y }
    }

    fn index_to_pos_unchecked(&self, index: Index2) -> (r: Fixed2)
        requires
            self.wf(),
            self.grid.in_bounds(index.x as int, index.y as int),
        ensures
            r.x == self.local_of_index_x(index.x as int),
            r.y == self.local_of_index_y(index.y as int),
            -SPAN_LIMIT <= r.x <= SPAN_LIMIT && -SPAN_LIMIT <= r.y <= SPAN_LIMIT,
    {
        let s: Size2 = self.world_space_scale();
        proof {
            self.lemma_in_bounds_index_scales(index);
        }
        let x: i64 = (index.x * SUBUNITS_PER_UNIT + (self.grid.center_offset.x - HALF_UNIT)) * (
        s.x as i64);
        let y: i64 = (index.y * SUBUNITS_PER_UNIT + (self.grid.center_offset.y - HALF_UNIT)) * (
        s.y as i64);
        Fixed2 { x, y }
    }

    /// Bounds for the scaled corner and center positions of an in-bounds
    /// tile index, per axis.
    proof fn lemma_in_bounds_index_scales(&self, index: Index2)
        requires
            self.wf(),
            self.grid.in_bounds(index.x as int, index.y as int),
        ensures
            -SPAN_LIMIT <= (index.x as int * SUBUNITS_PER_UNIT + self.grid.tile_offset_x())
                * self.scale_x() <= SPAN_LIMIT,
            -SPAN_LIMIT <= (index.y as int * SUBUNITS_PER_UNIT + self.grid.tile_offset_y())
                * self.scale_y() <= SPAN_LIMIT,
            -SPAN_LIMIT <= (index.x as int * SUBUNITS_PER_UNIT + self.grid.tile_offset_x()
                + HALF_UNIT) * self.scale_x() <= SPAN_LIMIT,
            -SPAN_LIMIT <= (index.y as int * SUBUNITS_PER_UNIT + self.grid.tile_offset_y()
                + HALF_UNIT) * self.scale_y() <= SPAN_LIMIT,
    {
        lemma_scaled_index_bound(
            index.x as int,
            self.grid.tile_count.x as int,
            self.grid.tile_offset_x(),
            self.scale_x(),
        );
        lemma_scaled_index_bound(
            index.y as int,
            self.grid.tile_count.y as int,
            self.grid.tile_offset_y(),
            self.scale_y(),
        );
        lemma_scaled_index_bound(
            index.x as int,
            self.grid.tile_count.x as int,
            self.grid.tile_offset_x() + HALF_UNIT,
            self.scale_x(),
        );
        lemma_scaled_index_bound(
            index.y as int,
            self.grid.tile_count.y as int,
            self.grid.tile_offset_y() + HALF_UNIT,
            self.scale_y(),
        );
    }

    /// An iterator over the camera-local position of the bottom-left corner
    /// of every tile, row-major with x fastest.
    pub fn tile_pos_iter(&self) -> (it: TilePosIterator)
        requires
            self.wf(),
        ensures
            it.wf(),
            it.origin.x == self.local_of_index_x(self.grid.min_index_x()),
            it.origin.y == self.local_of_index_y(self.grid.min_index_y()),
            it.step.x == SUBUNITS_PER_UNIT * self.scale_x(),
            it.step.y == SUBUNITS_PER_UNIT * self.scale_y(),
            it.width == self.grid.tile_count.x && it.height == self.grid.tile_count.y,
            it.current == 0,
            -SPAN_LIMIT <= it.origin.x <= SPAN_LIMIT && -SPAN_LIMIT <= it.origin.y <= SPAN_LIMIT,
    {
        let s: Size2 = self.world_space_scale();
        let min_index: Index2 = Index2 {
            x: if self.grid.centered {
                -((self.grid.tile_count.x / 2) as i64)
            } else {
                0
            },
            y: if self.grid.centered {
                -((self.grid.tile_count.y / 2) as i64)
            } else {
                0
            },
        };
        proof {
            lemma_scaled_index_bound(
                min_index.x as int,
                self.grid.tile_count.x as int,
                self.grid.tile_offset_x(),
                self.scale_x(),
            );
            lemma_scaled_index_bound(
                min_index.y as int,
                self.grid.tile_count.y as int,
                self.grid.tile_offset_y(),
                self.scale_y(),
            );
            lemma_scaled_width_bound(
                self.grid.tile_count.x as int,
                self.pixels_per_tile.x as int,
                self.scale_x(),
            );
            lemma_scaled_width_bound(
                self.grid.tile_count.y as int,
                self.pixels_per_tile.y as int,
                self.scale_y(),
            );
        }
        let origin: Fixed2 = Fixed2 {
            x: (min_index.x * SUBUNITS_PER_UNIT + (self.grid.center_offset.x - HALF_UNIT)) * (
            s.x as i64),
            y: (min_index.y * SUBUNITS_PER_UNIT + (self.grid.center_offset.y - HALF_UNIT)) * (
            s.y as i64),
        };
        TilePosIterator {
            origin,
            step: Fixed2 {
                x: SUBUNITS_PER_UNIT * (s.x as i64),
                y: SUBUNITS_PER_UNIT * (s.y as i64),
            },
            width: self.grid.tile_count.x as u64,
            height: self.grid.tile_count.y as u64,
            current: 0,
        }
    }

    /// An iterator over the camera-local position of the center of every
    /// tile, row-major with x fastest.
    pub fn tile_center_iter(&self) -> (it: TileCenterIterator)
        requires
            self.wf(),
        ensures
            it.wf(),
            it.iter.origin.x == self.local_of_index_x(self.grid.min_index_x()),
            it.iter.origin.y == self.local_of_index_y(self.grid.min_index_y()),
            it.iter.step.x == SUBUNITS_PER_UNIT * self.scale_x(),
            it.iter.step.y == SUBUNITS_PER_UNIT * self.scale_y(),
            it.iter.width == self.grid.tile_count.x && it.iter.height == self.grid.tile_count.y,
            it.iter.current == 0,
            it.offset.x == HALF_UNIT * self.scale_x(),
            it.offset.y == HALF_UNIT * self.scale_y(),
            -SPAN_LIMIT <= it.iter.origin.x <= SPAN_LIMIT && -SPAN_LIMIT <= it.iter.origin.y
                <= SPAN_LIMIT,
    {
        let s: Size2 = self.world_space_scale();
        proof {
            lemma_scaled_offset_bound(HALF_UNIT as int, self.scale_x());
            lemma_scaled_offset_bound(HALF_UNIT as int, self.scale_y());
        }
        TileCenterIterator {
            iter: self.tile_pos_iter(),
            offset: Fixed2 { x: HALF_UNIT * (s.x as i64), y: HALF_UNIT * (s.y as i64) },
        }
    }
}

/// Round trip: taking an in-bounds tile index to the world position of its
/// corner under any camera translation, and that position back to a tile
/// index, returns the same index, in either world space.
pub proof fn lemma_world_round_trip(g: WorldGrid, transform: Fixed2, i: Index2)
    requires
        g.wf(),
        g.grid.in_bounds(i.x as int, i.y as int),
    ensures
        g.index_of_local_x((g.local_of_index_x(i.x as int) + transform.x) - transform.x) == i.x
            as int,
        g.index_of_local_y((g.local_of_index_y(i.y as int) + transform.y) - transform.y) == i.y
            as int,
{
    lemma_axis_round_trip(i.x as int, g.grid.tile_offset_x(), g.scale_x());
    lemma_axis_round_trip(i.y as int, g.grid.tile_offset_y(), g.scale_y());
}

/// One axis of the round trip: scaling an index to a corner position and
/// flooring the position back over the tile's world span is the identity.
proof fn lemma_axis_round_trip(i: int, t: int, s: int)
    requires
        1 <= s,
    ensures
        ((i * SUBUNITS_PER_UNIT + t) * s - t * s) / (SUBUNITS_PER_UNIT * s) == i,
{
    lemma_unscale_corner(t, s, i);
    lemma_mul_is_commutative(i, SUBUNITS_PER_UNIT * s);
    vstd::arithmetic::div_mod::lemma_div_multiples_vanish(i, SUBUNITS_PER_UNIT * s);
}

/// Bound for a tile offset scaled by a world-space factor no larger than
/// `u32::MAX`.
proof fn lemma_scaled_offset_bound(off: int, s: int)
    requires
        -500 <= off <= 500,
        1 <= s <= u32::MAX,
    ensures
        -2_147_483_647_500 <= off * s <= 2_147_483_647_500,
{
    assert(-2_147_483_647_500 <= off * s <= 2_147_483_647_500) by (nonlinear_arith)
        requires
            -500 <= off <= 500,
            1 <= s <= 4_294_967_295,
    ;
}

/// Bound for the scaled position of a tile index within one grid span:
/// with the target resolution `count * s` held to `u32::MAX`, the product
/// stays within [`SPAN_LIMIT`].
proof fn lemma_scaled_index_bound(iv: int, count: int, off: int, s: int)
    requires
        1 <= count,
        1 <= s,
        count * s <= u32::MAX,
        -count <= iv <= count,
        -500 <= off <= 1000,
    ensures
        -SPAN_LIMIT <= (iv * SUBUNITS_PER_UNIT + off) * s <= SPAN_LIMIT,
{
    assert(-SPAN_LIMIT <= (iv * 1000 + off) * s <= SPAN_LIMIT) by (nonlinear_arith)
        requires
            1 <= count,
            1 <= s,
            count * s <= 4_294_967_295,
            -count <= iv <= count,
            -500 <= off <= 1000,
    ;
}

/// Bound for one grid row's extent in subunits: tiles times subunits per
/// tile, with the target resolution held to `u32::MAX`.
proof fn lemma_scaled_width_bound(count: int, ppt: int, s: int)
    requires
        1 <= count,
        1 <= ppt,
        count * ppt <= u32::MAX,
        s == 1 || s == ppt,
    ensures
        1 <= SUBUNITS_PER_UNIT * s <= SPAN_LIMIT,
        count * (SUBUNITS_PER_UNIT * s) <= SPAN_LIMIT,
{
    assert(1 <= 1000 * s <= SPAN_LIMIT && count * (1000 * s) <= SPAN_LIMIT) by (nonlinear_arith)
        requires
            1 <= count,
            1 <= ppt,
            count * ppt <= 4_294_967_295,
            s == 1 || s == ppt,
    ;
}

/// The floor multiple of `d` below `a - off` stays within one step of
/// `a - off` itself.
proof fn lemma_floor_scale_back(a: int, off: int, d: int)
    requires
        1 <= d,
    ensures
        a - off - d < ((a - off) / d) * d <= a - off,
{
    lemma_fundamental_div_mod(a - off, d);
    lemma_mul_is_commutative((a - off) / d, d);
}

/// Scaling a tile index back to a corner position distributes over the
/// scale factor: `(i * u + t) * s == i * (u * s) + t * s` for the subunit
/// count `u`.
proof fn lemma_unscale_corner(t: int, s: int, i: int)
    ensures
        (i * SUBUNITS_PER_UNIT + t) * s == i * (SUBUNITS_PER_UNIT * s) + t * s,
{
    assert((i * 1000 + t) * s == i * (1000 * s) + t * s) by (nonlinear_arith);
}

} // verus!
