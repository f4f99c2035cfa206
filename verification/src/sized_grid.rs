//! Pure index and position math for a fixed-size tile grid.
//!
//! A grid is either centered (index `(0, 0)` sits at the grid's spatial
//! middle) or uncentered (index `(0, 0)` is the bottom-left tile). A
//! centered axis with an even tile count carries a half-unit parity offset,
//! so index `(0, 0)`'s bottom-left corner sits exactly on the origin and
//! its center on the half-unit; an odd count needs no offset and puts the
//! center of tile `(0, 0)` on the origin.

use vstd::prelude::*;
use vstd::arithmetic::div_mod::lemma_div_multiples_vanish;
use vstd::arithmetic::div_mod::lemma_fundamental_div_mod;
use vstd::arithmetic::mul::lemma_mul_is_commutative;
use vstd::arithmetic::mul::lemma_mul_inequality;
use vstd::arithmetic::mul::lemma_mul_upper_bound;
use crate::coords::Fixed2;
use crate::coords::HALF_UNIT;
use crate::coords::Index2;
use crate::coords::SPAN_LIMIT;
use crate::coords::SUBUNITS_PER_UNIT;
use crate::coords::Size2;
use crate::coords::cam_in_range;
use crate::coords::floor_div;
use crate::coords::index_in_limit;
use crate::coords::lemma_row_col;
use crate::coords::local_in_range;
use crate::coords::pos_in_range;

verus! {

/// The parity offset of one axis, in subunits: half a unit on a centered
/// axis with an even tile count or on any uncentered axis, else zero.
pub open spec fn spec_parity_offset(centered: bool, count: u32) -> int {
    if !centered {
        HALF_UNIT as int
    } else if count % 2 == 0 {
        HALF_UNIT as int
    } else {
        0
    }
}

/// A fixed-size tile grid with a centering convention.
///
/// `center_offset` is derived from `tile_count` and `centered`; every
/// operation requires the well-formedness predicate [`SizedGrid::wf`],
/// which the constructors establish.
#[derive(Clone, Copy, Debug)]
pub struct SizedGrid {
    pub tile_count: Size2,
    pub center_offset: Fixed2,
    pub centered: bool,
}

impl SizedGrid {
    /// The grid has at least one tile per axis and its parity offset is the
    /// one derived from its tile count and centering.
    pub open spec fn wf(&self) -> bool {
        &&& self.tile_count.x >= 1
        &&& self.tile_count.y >= 1
        &&& self.center_offset.x == spec_parity_offset(self.centered, self.tile_count.x)
        &&& self.center_offset.y == spec_parity_offset(self.centered, self.tile_count.y)
    }

    /// The offset, in subunits, from a tile index (in units) to the tile's
    /// bottom-left corner on the x axis.
    pub open spec fn tile_offset_x(&self) -> int {
        self.center_offset.x - HALF_UNIT
    }

    /// The offset, in subunits, from a tile index (in units) to the tile's
    /// bottom-left corner on the y axis.
    pub open spec fn tile_offset_y(&self) -> int {
        self.center_offset.y - HALF_UNIT
    }

    /// The x coordinate, in subunits, of the bottom-left corner of the tile
    /// whose index on the x axis is `ix`.
    pub open spec fn local_of_index_x(&self, ix: int) -> int {
        ix * SUBUNITS_PER_UNIT + self.tile_offset_x()
    }

    /// The y coordinate, in subunits, of the bottom-left corner of the tile
    /// whose index on the y axis is `iy`.
    pub open spec fn local_of_index_y(&self, iy: int) -> int {
        iy * SUBUNITS_PER_UNIT + self.tile_offset_y()
    }

    /// The x coordinate, in subunits, of the center of the tile whose index
    /// on the x axis is `ix`.
    pub open spec fn center_of_index_x(&self, ix: int) -> int {
        self.local_of_index_x(ix) + HALF_UNIT
    }

    /// The y coordinate, in subunits, of the center of the tile whose index
    /// on the y axis is `iy`.
    pub open spec fn center_of_index_y(&self, iy: int) -> int {
        self.local_of_index_y(iy) + HALF_UNIT
    }

    /// The index on the x axis of the tile containing a local position:
    /// the floor of the position less the tile offset, in units.
    pub open spec fn index_of_local_x(&self, lx: int) -> int {
        (lx - self.tile_offset_x()) / (SUBUNITS_PER_UNIT as int)
    }

    /// The index on the y axis of the tile containing a local position.
    pub open spec fn index_of_local_y(&self, ly: int) -> int {
        (ly - self.tile_offset_y()) / (SUBUNITS_PER_UNIT as int)
    }

    /// The smallest in-bounds index on the x axis. A centered grid uses the
    /// negative lower bound `-tile_count / 2`, which places index `(0, 0)`
    /// at the grid's spatial center; an uncentered grid starts at zero.
    /// Note that a positive lower bound `tile_count / 2` is not equivalent
    /// for odd counts; the worked tile-center examples need the negative
    /// convention.
    pub open spec fn min_index_x(&self) -> int {
        if self.centered {
            -((self.tile_count.x as int) / 2)
        } else {
            0
        }
    }

    /// The smallest in-bounds index on the y axis.
    pub open spec fn min_index_y(&self) -> int {
        if self.centered {
            -((self.tile_count.y as int) / 2)
        } else {
            0
        }
    }

    /// Whether `(ix, iy)` lies within the grid: at least the minimum index
    /// and below the minimum plus the tile count, per axis.
    pub open spec fn in_bounds(&self, ix: int, iy: int) -> bool {
        &&& self.min_index_x() <= ix < self.min_index_x() + self.tile_count.x
        &&& self.min_index_y() <= iy < self.min_index_y() + self.tile_count.y
    }

    /// Create a centered grid: index `(0, 0)` maps to the grid's spatial
    /// middle, and even axes carry the half-unit parity offset.
    ///
    /// Returns `None` exactly when an axis of `tile_count` is zero.
    pub fn new(tile_count: Size2) -> (r: Option<SizedGrid>)
        ensures
            r is Some <==> tile_count.x >= 1 && tile_count.y >= 1,
            r matches Some(g) ==> g.wf() && g.tile_count == tile_count && g.centered,
    {
        if tile_count.x == 0 || tile_count.y == 0 {
            return None;
        }
        let off_x: i64 = if tile_count.x % 2 == 0 { HALF_UNIT } else { 0 };
        let off_y: i64 = if tile_count.y % 2 == 0 { HALF_UNIT } else { 0 };
        Some(SizedGrid {
            tile_count,
            center_offset: Fixed2 { x: off_x, y: off_y },
            centered: true,
        })
    }

    /// Create an uncentered grid: index `(0, 0)` is the bottom-left tile
    /// and the origin is the grid's minimum corner.
    ///
    /// Returns `None` exactly when an axis of `tile_count` is zero.
    pub fn new_uncentered(tile_count: Size2) -> (r: Option<SizedGrid>)
        ensures
            r is Some <==> tile_count.x >= 1 && tile_count.y >= 1,
            r matches Some(g) ==> g.wf() && g.tile_count == tile_count && !g.centered,
    {
        if tile_count.x == 0 || tile_count.y == 0 {
            return None;
        }
        Some(SizedGrid {
            tile_count,
            center_offset: Fixed2 { x: HALF_UNIT, y: HALF_UNIT },
            centered: false,
        })
    }

    /// Whether the given tile index is in the bounds of the grid.
    pub fn tile_in_bounds(&self, tile_pos: Index2) -> (r: bool)
        requires
            self.wf(),
        ensures
            r == self.in_bounds(tile_pos.x as int, tile_pos.y as int),
    {
        let min_x: i64 = self.min_index_exec_x();
        let min_y: i64 = self.min_index_exec_y();
        let count_x: i64 = self.tile_count.x as i64;
        let count_y: i64 = self.tile_count.y as i64;
        min_x <= tile_pos.x && tile_pos.x < min_x + count_x && min_y <= tile_pos.y
            && tile_pos.y < min_y + count_y
    }

    /// Convert a tile index to the local position of the tile's bottom-left
    /// corner. Unchecked: out-of-bounds indices extrapolate.
    pub fn tile_to_local(&self, tile: Index2) -> (r: Fixed2)
        requires
            self.wf(),
            index_in_limit(tile),
        ensures
            r.x == self.local_of_index_x(tile.x as int),
            r.y == self.local_of_index_y(tile.y as int),
            local_in_range(r),
    {
        Fixed2 {
            x: tile.x * SUBUNITS_PER_UNIT + (self.center_offset.x - HALF_UNIT),
            y: tile.y * SUBUNITS_PER_UNIT + (self.center_offset.y - HALF_UNIT),
        }
    }

    /// Convert a local position to the index of the tile containing it.
    /// Unchecked: positions outside the grid give out-of-bounds indices,
    /// which callers test separately, so a cursor may leave the grid.
    pub fn local_to_tile(&self, local: Fixed2) -> (r: Index2)
        requires
            self.wf(),
            local_in_range(local),
        ensures
            r.x == self.index_of_local_x(local.x as int),
            r.y == self.index_of_local_y(local.y as int),
    {
        let ix: i64 = floor_div(local.x - (self.center_offset.x - HALF_UNIT), SUBUNITS_PER_UNIT);
        let iy: i64 = floor_div(local.y - (self.center_offset.y - HALF_UNIT), SUBUNITS_PER_UNIT);
        Index2 { x: ix, y: iy }
    }

    /// Convert a tile index to the world position of the tile's bottom-left
    /// corner, or `None` when the index is out of bounds.
    pub fn tile_to_world(&self, transform: Fixed2, tile_pos: Index2) -> (r: Option<Fixed2>)
        requires
            self.wf(),
            cam_in_range(transform),
        ensures
            r is Some <==> self.in_bounds(tile_pos.x as int, tile_pos.y as int),
            r matches Some(p) ==> p.x == self.local_of_index_x(tile_pos.x as int) + transform.x
                && p.y == self.local_of_index_y(tile_pos.y as int) + transform.y,
    {
        if !self.tile_in_bounds(tile_pos) {
            return None;
        }
        Some(self.tile_to_world_unchecked(transform, tile_pos))
    }

    /// Convert a world position to the index of the tile containing it, or
    /// `None` when that index is out of bounds.
    pub fn world_to_tile(&self, transform: Fixed2, world_pos: Fixed2) -> (r: Option<Index2>)
        requires
            self.wf(),
            cam_in_range(transform),
            pos_in_range(world_pos),
        ensures
            r is Some <==> self.in_bounds(
                self.index_of_local_x(world_pos.x - transform.x),
                self.index_of_local_y(world_pos.y - transform.y),
            ),
            r matches Some(i) ==> i.x == self.index_of_local_x(world_pos.x - transform.x)
                && i.y == self.index_of_local_y(world_pos.y - transform.y),
    {
        let tile_pos: Index2 = self.world_to_tile_unchecked(transform, world_pos);
        if !self.tile_in_bounds(tile_pos) {
            return None;
        }
        Some(tile_pos)
    }

    /// Convert a tile index to the world position of the tile's center, or
    /// `None` when the index is out of bounds.
    pub fn tile_to_tile_center_world(&self, transform: Fixed2, tile_pos: Index2) -> (r: Option<
        Fixed2,
    >)
        requires
            self.wf(),
            cam_in_range(transform),
        ensures
            r is Some <==> self.in_bounds(tile_pos.x as int, tile_pos.y as int),
            r matches Some(p) ==> p.x == self.center_of_index_x(tile_pos.x as int) + transform.x
                && p.y == self.center_of_index_y(tile_pos.y as int) + transform.y,
    {
        if !self.tile_in_bounds(tile_pos) {
            return None;
        }
        Some(self.tile_center_world_unchecked(transform, tile_pos))
    }

    /// Convert a world position to the world center of the tile containing
    /// it, or `None` when that tile is out of bounds.
    pub fn world_to_tile_center(&self, cam_transform: Fixed2, world_pos: Fixed2) -> (r: Option<
        Fixed2,
    >)
        requires
            self.wf(),
            cam_in_range(cam_transform),
            pos_in_range(world_pos),
        ensures
            r is Some <==> self.in_bounds(
                self.index_of_local_x(world_pos.x - cam_transform.x),
                self.index_of_local_y(world_pos.y - cam_transform.y),
            ),
            r matches Some(p) ==> p.x == self.center_of_index_x(
                self.index_of_local_x(world_pos.x - cam_transform.x),
            ) + cam_transform.x && p.y == self.center_of_index_y(
                self.index_of_local_y(world_pos.y - cam_transform.y),
            ) + cam_transform.y,
    {
        if let Some(tile) = self.world_to_tile(cam_transform, world_pos) {
            return Some(self.tile_center_world_unchecked(cam_transform, tile));
        }
        None
    }

    fn tile_to_world_unchecked(&self, transform: Fixed2, tile_pos: Index2) -> (r: Fixed2)
        requires
            self.wf(),
            cam_in_range(transform),
            index_in_limit(tile_pos),
        ensures
            r.x == self.local_of_index_x(tile_pos.x as int) + transform.x,
            r.y == self.local_of_index_y(tile_pos.y as int) + transform.y,
    {
        let local: Fixed2 = self.tile_to_local(tile_pos);
        self.local_to_world(transform, local)
    }

    fn world_to_tile_unchecked(&self, transform: Fixed2, world_pos: Fixed2) -> (r: Index2)
        requires
            self.wf(),
            cam_in_range(transform),
            pos_in_range(world_pos),
        ensures
            r.x == self.index_of_local_x(world_pos.x - transform.x),
            r.y == self.index_of_local_y(world_pos.y - transform.y),
    {
        let local: Fixed2 = self.world_to_local(transform, world_pos);
        self.local_to_tile(local)
    }

    fn tile_center_world_unchecked(&self, transform: Fixed2, tile_pos: Index2) -> (r: Fixed2)
        requires
            self.wf(),
            cam_in_range(transform),
            index_in_limit(tile_pos),
        ensures
            r.x == self.center_of_index_x(tile_pos.x as int) + transform.x,
            r.y == self.center_of_index_y(tile_pos.y as int) + transform.y,
    {
        let world: Fixed2 = self.tile_to_world_unchecked(transform, tile_pos);
        Fixed2 { x: world.x + HALF_UNIT, y: world.y + HALF_UNIT }
    }

    fn local_to_world(&self, transform: Fixed2, local_pos: Fixed2) -> (r: Fixed2)
        requires
            cam_in_range(transform),
            local_in_range(local_pos),
        ensures
            r.x == local_pos.x + transform.x,
            r.y == local_pos.y + transform.y,
    {
        Fixed2 { x: local_pos.x + transform.x, y: local_pos.y + transform.y }
    }

    fn world_to_local(&self, transform: Fixed2, world_pos: Fixed2) -> (r: Fixed2)
        requires
            cam_in_range(transform),
            pos_in_range(world_pos),
        ensures
            r.x == world_pos.x - transform.x,
            r.y == world_pos.y - transform.y,
            local_in_range(r),
    {
        Fixed2 { x: world_pos.x - transform.x, y: world_pos.y - transform.y }
    }

    fn min_index_exec_x(&self) -> (r: i64)
        requires
            self.wf(),
        ensures
            r == self.min_index_x(),
    {
        if self.centered {
            -((self.tile_count.x / 2) as i64)
        } else {
            0
        }
    }

    fn min_index_exec_y(&self) -> (r: i64)
        requires
            self.wf(),
        ensures
            r == self.min_index_y(),
    {
        if self.centered {
            -((self.tile_count.y / 2) as i64)
        } else {
            0
        }
    }

    /// Retrieve the world position of the bottom-left corner of the grid's
    /// minimum tile, the anchor from which iteration proceeds.
    pub fn min_world_position(&self, transform: Fixed2) -> (r: Fixed2)
        requires
            self.wf(),
            cam_in_range(transform),
        ensures
            r.x == self.local_of_index_x(self.min_index_x()) + transform.x,
            r.y == self.local_of_index_y(self.min_index_y()) + transform.y,
            pos_in_range(r),
    {
        let min_cell: Index2 = Index2 { x: self.min_index_exec_x(), y: self.min_index_exec_y() };
        self.tile_to_world_unchecked(transform, min_cell)
    }

    /// An iterator over the world position of the bottom-left corner of
    /// every tile of the grid, row-major with x fastest.
    pub fn pos_iter(&self, transform: Fixed2) -> (it: TilePosIterator)
        requires
            self.wf(),
            cam_in_range(transform),
        ensures
            it.wf(),
            it.origin.x == self.local_of_index_x(self.min_index_x()) + transform.x,
            it.origin.y == self.local_of_index_y(self.min_index_y()) + transform.y,
            it.step.x == SUBUNITS_PER_UNIT && it.step.y == SUBUNITS_PER_UNIT,
            it.width == self.tile_count.x && it.height == self.tile_count.y,
            it.current == 0,
    {
        TilePosIterator::from_grid(self, transform)
    }

    /// An iterator over the world position of the center of every tile of
    /// the grid, row-major with x fastest.
    pub fn center_iter(&self, transform: Fixed2) -> (it: TileCenterIterator)
        requires
            self.wf(),
            cam_in_range(transform),
        ensures
            it.wf(),
            it.iter.origin.x == self.local_of_index_x(self.min_index_x()) + transform.x,
            it.iter.origin.y == self.local_of_index_y(self.min_index_y()) + transform.y,
            it.iter.step.x == SUBUNITS_PER_UNIT && it.iter.step.y == SUBUNITS_PER_UNIT,
            it.iter.width == self.tile_count.x && it.iter.height == self.tile_count.y,
            it.iter.current == 0,
            it.offset.x == HALF_UNIT && it.offset.y == HALF_UNIT,
    {
        TileCenterIterator::from_grid(self, transform)
    }
}

/// A finite, restartable iterator over a row-major lattice of positions:
/// cell `n` maps to `origin + (n % width) * step` on x and
/// `origin + (n / width) * step` on y.
pub struct TilePosIterator {
    pub origin: Fixed2,
    pub step: Fixed2,
    pub width: u64,
    pub height: u64,
    pub current: u64,
}

impl TilePosIterator {
    /// How many positions the iterator yields in all.
    pub open spec fn len(&self) -> int {
        self.width * self.height
    }

    /// Steps are positive, rows and columns span a bounded extent, the
    /// origin is a representable position and the cursor has not run past
    /// the end.
    pub open spec fn wf(&self) -> bool {
        &&& 1 <= self.step.x <= SPAN_LIMIT
        &&& 1 <= self.step.y <= SPAN_LIMIT
        &&& self.width <= u32::MAX
        &&& self.height <= u32::MAX
        &&& self.width * self.step.x <= SPAN_LIMIT
        &&& self.height * self.step.y <= SPAN_LIMIT
        &&& pos_in_range(self.origin)
        &&& self.current <= self.len()
    }

    /// The x coordinate of the `n`th position yielded.
    pub open spec fn item_x(&self, n: int) -> int {
        self.origin.x + (n % (self.width as int)) * self.step.x
    }

    /// The y coordinate of the `n`th position yielded.
    pub open spec fn item_y(&self, n: int) -> int {
        self.origin.y + (n / (self.width as int)) * self.step.y
    }

    fn from_grid(grid: &SizedGrid, transform: Fixed2) -> (it: TilePosIterator)
        requires
            grid.wf(),
            cam_in_range(transform),
        ensures
            it.wf(),
            it.origin.x == grid.local_of_index_x(grid.min_index_x()) + transform.x,
            it.origin.y == grid.local_of_index_y(grid.min_index_y()) + transform.y,
            it.step.x == SUBUNITS_PER_UNIT && it.step.y == SUBUNITS_PER_UNIT,
            it.width == grid.tile_count.x && it.height == grid.tile_count.y,
            it.current == 0,
    {
        let it: TilePosIterator = TilePosIterator {
            origin: grid.min_world_position(transform),
            step: Fixed2 { x: SUBUNITS_PER_UNIT, y: SUBUNITS_PER_UNIT },
            width: grid.tile_count.x as u64,
            height: grid.tile_count.y as u64,
            current: 0,
        };
        proof {
            lemma_mul_upper_bound(
                it.width as int,
                u32::MAX as int,
                it.step.x as int,
                SUBUNITS_PER_UNIT as int,
            );
            lemma_mul_upper_bound(
                it.height as int,
                u32::MAX as int,
                it.step.y as int,
                SUBUNITS_PER_UNIT as int,
            );
        }
        it
    }

    /// Yield the next position, or `None` once every cell has been yielded.
    pub fn next(&mut self) -> (r: Option<Fixed2>)
        requires
            old(self).wf(),
        ensures
            final(self).wf(),
            old(self).current < old(self).len() ==> {
                &&& r matches Some(p)
                &&& p.x == old(self).item_x(old(self).current as int)
                &&& p.y == old(self).item_y(old(self).current as int)
                &&& *final(self) == TilePosIterator {
                    current: (old(self).current + 1) as u64,
                    ..*old(self)
                }
            },
            old(self).current >= old(self).len() ==> r is None && *final(self) == *old(self),
    {
        proof {
            lemma_mul_upper_bound(
                self.width as int,
                u32::MAX as int,
                self.height as int,
                u32::MAX as int,
            );
        }
        let length: u64 = self.width * self.height;
        if self.current < length {
            let i: u64 = self.current;
            proof {
                if self.width == 0 {
                    assert(self.width * self.height == 0) by (nonlinear_arith)
                        requires
                            self.width == 0,
                    ;
                }
                lemma_row_col(i as int, self.width as int, self.height as int);
                let col: int = (i as int) % (self.width as int);
                let row: int = (i as int) / (self.width as int);
                lemma_mul_inequality(col + 1, self.width as int, self.step.x as int);
                lemma_mul_inequality(row + 1, self.height as int, self.step.y as int);
                lemma_mul_inequality(col, col + 1, self.step.x as int);
                lemma_mul_inequality(row, row + 1, self.step.y as int);
                lemma_mul_inequality(0, col, self.step.x as int);
                lemma_mul_inequality(0, row, self.step.y as int);
            }
            let col: u64 = i % self.width;
            let row: u64 = i / self.width;
            let x: i64 = self.origin.x + (col as i64) * self.step.x;
            let y: i64 = self.origin.y + (row as i64) * self.step.y;
            self.current = i + 1;
            Some(Fixed2 { x, y })
        } else {
            None
        }
    }
}

/// A finite, restartable iterator over tile centers: each position of the
/// underlying corner iterator, shifted by half a tile on each axis.
pub struct TileCenterIterator {
    pub iter: TilePosIterator,
    pub offset: Fixed2,
}

impl TileCenterIterator {
    /// The center shift is nonnegative, bounded by one row's extent, and
    /// the underlying corner iterator is well-formed.
    pub open spec fn wf(&self) -> bool {
        &&& self.iter.wf()
        &&& 0 <= self.offset.x <= SPAN_LIMIT
        &&& 0 <= self.offset.y <= SPAN_LIMIT
    }

    /// The x coordinate of the `n`th center yielded.
    pub open spec fn item_x(&self, n: int) -> int {
        self.iter.item_x(n) + self.offset.x
    }

    /// The y coordinate of the `n`th center yielded.
    pub open spec fn item_y(&self, n: int) -> int {
        self.iter.item_y(n) + self.offset.y
    }

    fn from_grid(grid: &SizedGrid, transform: Fixed2) -> (it: TileCenterIterator)
        requires
            grid.wf(),
            cam_in_range(transform),
        ensures
            it.wf(),
            it.iter.origin.x == grid.local_of_index_x(grid.min_index_x()) + transform.x,
            it.iter.origin.y == grid.local_of_index_y(grid.min_index_y()) + transform.y,
            it.iter.step.x == SUBUNITS_PER_UNIT && it.iter.step.y == SUBUNITS_PER_UNIT,
            it.iter.width == grid.tile_count.x && it.iter.height == grid.tile_count.y,
            it.iter.current == 0,
            it.offset.x == HALF_UNIT && it.offset.y == HALF_UNIT,
    {
        TileCenterIterator {
            iter: grid.pos_iter(transform),
            offset: Fixed2 { x: HALF_UNIT, y: HALF_UNIT },
        }
    }

    /// Yield the next center, or `None` once every cell has been yielded.
    pub fn next(&mut self) -> (r: Option<Fixed2>)
        requires
            old(self).wf(),
        ensures
            final(self).wf(),
            old(self).iter.current < old(self).iter.len() ==> {
                &&& r matches Some(p)
                &&& p.x == old(self).item_x(old(self).iter.current as int)
                &&& p.y == old(self).item_y(old(self).iter.current as int)
                &&& *final(self) == TileCenterIterator {
                    iter: TilePosIterator {
                        current: (old(self).iter.current + 1) as u64,
                        ..old(self).iter
                    },
                    ..*old(self)
                }
            },
            old(self).iter.current >= old(self).iter.len() ==> r is None && *final(self) == *old(
                self,
            ),
    {
        proof {
            if old(self).iter.current < old(self).iter.len() {
                let n: int = old(self).iter.current as int;
                let w: int = old(self).iter.width as int;
                lemma_row_col(n, w, old(self).iter.height as int);
                lemma_mul_inequality(n % w + 1, w, old(self).iter.step.x as int);
                lemma_mul_inequality(
                    n / w + 1,
                    old(self).iter.height as int,
                    old(self).iter.step.y as int,
                );
                lemma_mul_inequality(n % w, n % w + 1, old(self).iter.step.x as int);
                lemma_mul_inequality(n / w, n / w + 1, old(self).iter.step.y as int);
                lemma_mul_inequality(0, n % w, old(self).iter.step.x as int);
                lemma_mul_inequality(0, n / w, old(self).iter.step.y as int);
            }
        }
        if let Some(p) = self.iter.next() {
            return Some(Fixed2 { x: p.x + self.offset.x, y: p.y + self.offset.y });
        }
        None
    }
}

/// Round trip: taking an in-bounds tile index to the world position of its
/// corner under any camera translation, and that position back to a tile
/// index, returns the same index.
pub proof fn lemma_tile_world_round_trip(g: SizedGrid, transform: Fixed2, i: Index2)
    requires
        g.wf(),
        g.in_bounds(i.x as int, i.y as int),
    ensures
        g.index_of_local_x((g.local_of_index_x(i.x as int) + transform.x) - transform.x) == i.x
            as int,
        g.index_of_local_y((g.local_of_index_y(i.y as int) + transform.y) - transform.y) == i.y
            as int,
{
    lemma_mul_is_commutative(i.x as int, SUBUNITS_PER_UNIT as int);
    lemma_mul_is_commutative(i.y as int, SUBUNITS_PER_UNIT as int);
    lemma_div_multiples_vanish(i.x as int, SUBUNITS_PER_UNIT as int);
    lemma_div_multiples_vanish(i.y as int, SUBUNITS_PER_UNIT as int);
}

/// Parity law: on a centered grid the parity offset of an axis is half a
/// unit exactly when the axis has an even tile count and zero when odd,
/// and tile `(0, 0)`'s corner sits at the offset minus half a unit.
pub proof fn lemma_parity_offset(g: SizedGrid)
    requires
        g.wf(),
        g.centered,
    ensures
        g.center_offset.x == if g.tile_count.x % 2 == 0 {
            HALF_UNIT as int
        } else {
            0
        },
        g.center_offset.y == if g.tile_count.y % 2 == 0 {
            HALF_UNIT as int
        } else {
            0
        },
        g.local_of_index_x(0) == g.center_offset.x - HALF_UNIT,
        g.local_of_index_y(0) == g.center_offset.y - HALF_UNIT,
{
}

/// Symmetry law: a centered grid spans an interval symmetric about the
/// local origin on each axis; its minimum corner and its maximum corner
/// (the corner one past the largest in-bounds index) are negatives of
/// each other, whatever the parity of the tile count.
pub proof fn lemma_centered_symmetry(g: SizedGrid)
    requires
        g.wf(),
        g.centered,
    ensures
        g.local_of_index_x(g.min_index_x()) + g.local_of_index_x(
            g.min_index_x() + g.tile_count.x,
        ) == 0,
        g.local_of_index_y(g.min_index_y()) + g.local_of_index_y(
            g.min_index_y() + g.tile_count.y,
        ) == 0,
{
    lemma_fundamental_div_mod(g.tile_count.x as int, 2);
    lemma_fundamental_div_mod(g.tile_count.y as int, 2);
}

/// Anchor law: an uncentered grid starts at the origin; index `(0, 0)` is
/// both the smallest in-bounds index and the grid's minimum corner.
pub proof fn lemma_corner_grid_origin(g: SizedGrid)
    requires
        g.wf(),
        !g.centered,
    ensures
        g.min_index_x() == 0 && g.min_index_y() == 0,
        g.local_of_index_x(0) == 0 && g.local_of_index_y(0) == 0,
{
}

/// A tile's center is its bottom-left corner plus half a unit per axis.
pub proof fn lemma_center_is_corner_plus_half(g: SizedGrid, i: Index2)
    requires
        g.wf(),
        g.in_bounds(i.x as int, i.y as int),
    ensures
        g.center_of_index_x(i.x as int) == g.local_of_index_x(i.x as int) + HALF_UNIT,
        g.center_of_index_y(i.y as int) == g.local_of_index_y(i.y as int) + HALF_UNIT,
{
}

} // verus!
