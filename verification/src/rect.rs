//! An axis-aligned rectangle in continuous or grid coordinates, with
//! overlap tests and iteration over the integer cells it contains.

use vstd::prelude::*;
use crate::coords::Fixed2;
use crate::coords::Index2;
use crate::coords::SUBUNITS_PER_UNIT;
use crate::coords::Size2;
use crate::coords::floor_div;
use crate::coords::lemma_row_col;
use crate::sized_grid::TilePosIterator;
use vstd::arithmetic::div_mod::lemma_div_pos_is_pos;
use vstd::arithmetic::div_mod::lemma_fundamental_div_mod;
use vstd::arithmetic::mul::lemma_mul_upper_bound;

verus! {

/// Largest magnitude, in subunits, of a rectangle extent.
pub const RECT_LIMIT: i64 = 1_000_000_000_000;

/// Largest magnitude, in subunits, of a rectangle position or size given
/// to a constructor, so that both extents stay within [`RECT_LIMIT`].
pub const RECT_HALF_LIMIT: i64 = 500_000_000_000;

/// Largest magnitude, in whole units, of a grid position or size given to
/// a constructor.
pub const RECT_GRID_LIMIT: i64 = 500_000_000;

/// A rectangle on a grid, as its minimum and maximum extents.
///
/// Every operation requires the well-formedness predicate [`Rect::wf`]:
/// extents in range and a nonnegative size, which the constructors
/// establish and the mutators keep.
#[derive(Clone, Copy, Debug, PartialEq, Eq, Structural, Default)]
pub struct Rect {
    pub min: Fixed2,
    pub max: Fixed2,
}

impl Rect {
    /// The extents are within range and the size is nonnegative per axis.
    pub open spec fn wf(&self) -> bool {
        &&& -RECT_LIMIT <= self.min.x && self.max.x <= RECT_LIMIT
        &&& -RECT_LIMIT <= self.min.y && self.max.y <= RECT_LIMIT
        &&& self.min.x <= self.max.x
        &&& self.min.y <= self.max.y
    }

    /// The whole-unit width: the floor of the width in units.
    pub open spec fn spec_grid_width(&self) -> int {
        (self.max.x - self.min.x) as int / (SUBUNITS_PER_UNIT as int)
    }

    /// The whole-unit height: the floor of the height in units.
    pub open spec fn spec_grid_height(&self) -> int {
        (self.max.y - self.min.y) as int / (SUBUNITS_PER_UNIT as int)
    }

    /// The grid cell of the minimum extent: its floor in units, per axis.
    pub open spec fn spec_grid_min_x(&self) -> int {
        self.min.x as int / (SUBUNITS_PER_UNIT as int)
    }

    /// The grid cell of the minimum extent on the y axis.
    pub open spec fn spec_grid_min_y(&self) -> int {
        self.min.y as int / (SUBUNITS_PER_UNIT as int)
    }

    /// The grid cell of the maximum extent: its floor in units, per axis.
    pub open spec fn spec_grid_max_x(&self) -> int {
        self.max.x as int / (SUBUNITS_PER_UNIT as int)
    }

    /// The grid cell of the maximum extent on the y axis.
    pub open spec fn spec_grid_max_y(&self) -> int {
        self.max.y as int / (SUBUNITS_PER_UNIT as int)
    }

    /// Whether two rectangles overlap as closed intervals on both axes, so
    /// rectangles that only touch along an edge still overlap.
    pub open spec fn spec_overlaps(&self, other: Rect) -> bool {
        !(self.max.x < other.min.x || self.min.x > other.max.x || self.max.y < other.min.y
            || self.min.y > other.max.y)
    }

    /// Construct a rect from its position (minimum corner) and size.
    pub fn from_position_size(pos: Fixed2, size: Fixed2) -> (r: Rect)
        requires
            -RECT_HALF_LIMIT <= pos.x <= RECT_HALF_LIMIT,
            -RECT_HALF_LIMIT <= pos.y <= RECT_HALF_LIMIT,
            0 <= size.x <= RECT_HALF_LIMIT,
            0 <= size.y <= RECT_HALF_LIMIT,
        ensures
            r.wf(),
            r.min == pos,
            r.max.x == pos.x + size.x && r.max.y == pos.y + size.y,
    {
        Rect { min: pos, max: Fixed2 { x: pos.x + size.x, y: pos.y + size.y } }
    }

    /// Construct a rect from a whole-unit position and size.
    pub fn from_grid_position_size(grid_pos: Index2, grid_size: Size2) -> (r: Rect)
        requires
            -RECT_GRID_LIMIT <= grid_pos.x <= RECT_GRID_LIMIT,
            -RECT_GRID_LIMIT <= grid_pos.y <= RECT_GRID_LIMIT,
            grid_size.x <= RECT_GRID_LIMIT,
            grid_size.y <= RECT_GRID_LIMIT,
        ensures
            r.wf(),
            r.min.x == grid_pos.x * SUBUNITS_PER_UNIT,
            r.min.y == grid_pos.y * SUBUNITS_PER_UNIT,
            r.max.x == (grid_pos.x + grid_size.x) * SUBUNITS_PER_UNIT,
            r.max.y == (grid_pos.y + grid_size.y) * SUBUNITS_PER_UNIT,
    {
        Rect {
            min: Fixed2 {
                x: grid_pos.x * SUBUNITS_PER_UNIT,
                y: grid_pos.y * SUBUNITS_PER_UNIT,
            },
            max: Fixed2 {
                x: (grid_pos.x + (grid_size.x as i64)) * SUBUNITS_PER_UNIT,
                y: (grid_pos.y + (grid_size.y as i64)) * SUBUNITS_PER_UNIT,
            },
        }
    }

    /// Construct a rect from its minimum and maximum extents.
    pub fn from_extents(min: Fixed2, max: Fixed2) -> (r: Rect)
        requires
            -RECT_LIMIT <= min.x && max.x <= RECT_LIMIT,
            -RECT_LIMIT <= min.y && max.y <= RECT_LIMIT,
            min.x <= max.x,
            min.y <= max.y,
        ensures
            r.wf(),
            r.min == min && r.max == max,
    {
        Rect { min, max }
    }

    /// Construct a rect from whole-unit minimum and maximum extents.
    pub fn from_grid_extents(min: Index2, max: Index2) -> (r: Rect)
        requires
            -RECT_GRID_LIMIT <= min.x && max.x <= RECT_GRID_LIMIT,
            -RECT_GRID_LIMIT <= min.y && max.y <= RECT_GRID_LIMIT,
            min.x <= max.x,
            min.y <= max.y,
        ensures
            r.wf(),
            r.min.x == min.x * SUBUNITS_PER_UNIT && r.min.y == min.y * SUBUNITS_PER_UNIT,
            r.max.x == max.x * SUBUNITS_PER_UNIT && r.max.y == max.y * SUBUNITS_PER_UNIT,
    {
        Rect {
            min: Fixed2 { x: min.x * SUBUNITS_PER_UNIT, y: min.y * SUBUNITS_PER_UNIT },
            max: Fixed2 { x: max.x * SUBUNITS_PER_UNIT, y: max.y * SUBUNITS_PER_UNIT },
        }
    }

    /// Construct a rect from its center and size. The minimum corner is the
    /// center less half the size, floored to a subunit.
    pub fn from_center_size(center: Fixed2, size: Fixed2) -> (r: Rect)
        requires
            -RECT_HALF_LIMIT <= center.x <= RECT_HALF_LIMIT,
            -RECT_HALF_LIMIT <= center.y <= RECT_HALF_LIMIT,
            0 <= size.x <= RECT_HALF_LIMIT,
            0 <= size.y <= RECT_HALF_LIMIT,
        ensures
            r.wf(),
            r.min.x == center.x - (size.x as int) / 2 && r.min.y == center.y - (size.y as int) / 2,
            r.max.x == r.min.x + size.x && r.max.y == r.min.y + size.y,
    {
        let half_x: i64 = floor_div(size.x, 2);
        let half_y: i64 = floor_div(size.y, 2);
        let min: Fixed2 = Fixed2 { x: center.x - half_x, y: center.y - half_y };
        Rect { min, max: Fixed2 { x: min.x + size.x, y: min.y + size.y } }
    }

    /// Construct a rect from a whole-unit center and size. The minimum
    /// corner is the center less half the size, floored to a unit.
    pub fn from_grid_center_size(center: Index2, size: Size2) -> (r: Rect)
        requires
            -RECT_GRID_LIMIT <= center.x <= RECT_GRID_LIMIT,
            -RECT_GRID_LIMIT <= center.y <= RECT_GRID_LIMIT,
            size.x <= RECT_GRID_LIMIT,
            size.y <= RECT_GRID_LIMIT,
        ensures
            r.wf(),
            r.min.x == (center.x - (size.x as int) / 2) * SUBUNITS_PER_UNIT,
            r.min.y == (center.y - (size.y as int) / 2) * SUBUNITS_PER_UNIT,
            r.max.x == r.min.x + size.x * SUBUNITS_PER_UNIT,
            r.max.y == r.min.y + size.y * SUBUNITS_PER_UNIT,
    {
        let min_x: i64 = center.x - ((size.x / 2) as i64);
        let min_y: i64 = center.y - ((size.y / 2) as i64);
        Rect {
            min: Fixed2 { x: min_x * SUBUNITS_PER_UNIT, y: min_y * SUBUNITS_PER_UNIT },
            max: Fixed2 {
                x: min_x * SUBUNITS_PER_UNIT + (size.x as i64) * SUBUNITS_PER_UNIT,
                y: min_y * SUBUNITS_PER_UNIT + (size.y as i64) * SUBUNITS_PER_UNIT,
            },
        }
    }

    /// The rect's size: its maximum extent less its minimum.
    pub fn size(&self) -> (r: Fixed2)
        requires
            self.wf(),
        ensures
            r.x == self.max.x - self.min.x,
            r.y == self.max.y - self.min.y,
    {
        Fixed2 { x: self.max.x - self.min.x, y: self.max.y - self.min.y }
    }

    /// The rect's size in whole units, floored per axis.
    pub fn grid_size(&self) -> (r: Size2)
        requires
            self.wf(),
        ensures
            r.x == self.spec_grid_width(),
            r.y == self.spec_grid_height(),
    {
        Size2 { x: self.grid_width(), y: self.grid_height() }
    }

    /// The rect's width in subunits.
    pub fn width(&self) -> (r: i64)
        requires
            self.wf(),
        ensures
            r == self.max.x - self.min.x,
    {
        self.max.x - self.min.x
    }

    /// The rect's width in whole units, floored.
    pub fn grid_width(&self) -> (r: u32)
        requires
            self.wf(),
        ensures
            r == self.spec_grid_width(),
    {
        proof {
            lemma_div_pos_is_pos(self.max.x - self.min.x, SUBUNITS_PER_UNIT as int);
            lemma_fundamental_div_mod(self.max.x - self.min.x, SUBUNITS_PER_UNIT as int);
        }
        floor_div(self.max.x - self.min.x, SUBUNITS_PER_UNIT) as u32
    }

    /// The rect's height in subunits.
    pub fn height(&self) -> (r: i64)
        requires
            self.wf(),
        ensures
            r == self.max.y - self.min.y,
    {
        self.max.y - self.min.y
    }

    /// The rect's height in whole units, floored.
    pub fn grid_height(&self) -> (r: u32)
        requires
            self.wf(),
        ensures
            r == self.spec_grid_height(),
    {
        proof {
            lemma_div_pos_is_pos(self.max.y - self.min.y, SUBUNITS_PER_UNIT as int);
            lemma_fundamental_div_mod(self.max.y - self.min.y, SUBUNITS_PER_UNIT as int);
        }
        floor_div(self.max.y - self.min.y, SUBUNITS_PER_UNIT) as u32
    }

    /// Resize the rect in place, keeping its position.
    pub fn set_size(&mut self, new_size: Fixed2)
        requires
            old(self).wf(),
            0 <= new_size.x && old(self).min.x + new_size.x <= RECT_LIMIT,
            0 <= new_size.y && old(self).min.y + new_size.y <= RECT_LIMIT,
        ensures
            final(self).wf(),
            final(self).min == old(self).min,
            final(self).max.x == old(self).min.x + new_size.x,
            final(self).max.y == old(self).min.y + new_size.y,
    {
        self.max = Fixed2 { x: self.min.x + new_size.x, y: self.min.y + new_size.y };
    }

    /// The rect's position: its minimum corner.
    pub fn position(&self) -> (r: Fixed2)
        ensures
            r == self.min,
    {
        self.min
    }

    /// The rect's position in whole units, floored, saturating at zero.
    pub fn grid_position(&self) -> (r: Size2)
        requires
            self.wf(),
        ensures
            r.x == if self.spec_grid_min_x() < 0 {
                0
            } else {
                self.spec_grid_min_x()
            },
            r.y == if self.spec_grid_min_y() < 0 {
                0
            } else {
                self.spec_grid_min_y()
            },
    {
        proof {
            lemma_fundamental_div_mod(self.min.x as int, SUBUNITS_PER_UNIT as int);
            lemma_fundamental_div_mod(self.min.y as int, SUBUNITS_PER_UNIT as int);
        }
        let gx: i64 = floor_div(self.min.x, SUBUNITS_PER_UNIT);
        let gy: i64 = floor_div(self.min.y, SUBUNITS_PER_UNIT);
        Size2 {
            x: if gx < 0 {
                0
            } else {
                gx as u32
            },
            y: if gy < 0 {
                0
            } else {
                gy as u32
            },
        }
    }

    /// The grid cell of the rect's minimum extent, floored per axis.
    pub fn grid_min(&self) -> (r: Index2)
        requires
            self.wf(),
        ensures
            r.x == self.spec_grid_min_x(),
            r.y == self.spec_grid_min_y(),
    {
        Index2 {
            x: floor_div(self.min.x, SUBUNITS_PER_UNIT),
            y: floor_div(self.min.y, SUBUNITS_PER_UNIT),
        }
    }

    /// The grid cell of the rect's maximum extent, floored per axis.
    pub fn grid_max(&self) -> (r: Index2)
        requires
            self.wf(),
        ensures
            r.x == self.spec_grid_max_x(),
            r.y == self.spec_grid_max_y(),
    {
        Index2 {
            x: floor_div(self.max.x, SUBUNITS_PER_UNIT),
            y: floor_div(self.max.y, SUBUNITS_PER_UNIT),
        }
    }

    /// Move the rect to a new position, keeping its size.
    pub fn set_position(&mut self, new_pos: Fixed2)
        requires
            old(self).wf(),
            -RECT_LIMIT <= new_pos.x && new_pos.x + (old(self).max.x - old(self).min.x)
                <= RECT_LIMIT,
            -RECT_LIMIT <= new_pos.y && new_pos.y + (old(self).max.y - old(self).min.y)
                <= RECT_LIMIT,
        ensures
            final(self).wf(),
            final(self).min == new_pos,
            final(self).max.x == new_pos.x + (old(self).max.x - old(self).min.x),
            final(self).max.y == new_pos.y + (old(self).max.y - old(self).min.y),
    {
        let size_x: i64 = self.max.x - self.min.x;
        let size_y: i64 = self.max.y - self.min.y;
        self.min = new_pos;
        self.max = Fixed2 { x: new_pos.x + size_x, y: new_pos.y + size_y };
    }

    /// Move the rect to a new whole-unit position, keeping its size.
    pub fn set_grid_position(&mut self, new_pos: Index2)
        requires
            old(self).wf(),
            -RECT_GRID_LIMIT <= new_pos.x <= RECT_GRID_LIMIT,
            -RECT_GRID_LIMIT <= new_pos.y <= RECT_GRID_LIMIT,
            new_pos.x * SUBUNITS_PER_UNIT + (old(self).max.x - old(self).min.x) <= RECT_LIMIT,
            new_pos.y * SUBUNITS_PER_UNIT + (old(self).max.y - old(self).min.y) <= RECT_LIMIT,
        ensures
            final(self).wf(),
            final(self).min.x == new_pos.x * SUBUNITS_PER_UNIT,
            final(self).min.y == new_pos.y * SUBUNITS_PER_UNIT,
            final(self).max.x == final(self).min.x + (old(self).max.x - old(self).min.x),
            final(self).max.y == final(self).min.y + (old(self).max.y - old(self).min.y),
    {
        let pos: Fixed2 = Fixed2 {
            x: new_pos.x * SUBUNITS_PER_UNIT,
            y: new_pos.y * SUBUNITS_PER_UNIT,
        };
        self.set_position(pos);
    }

    /// The rect's center: its minimum corner plus half its size, floored
    /// to a subunit.
    pub fn center(&self) -> (r: Fixed2)
        requires
            self.wf(),
        ensures
            r.x == self.min.x + (self.max.x - self.min.x) / 2,
            r.y == self.min.y + (self.max.y - self.min.y) / 2,
    {
        let half_x: i64 = floor_div(self.max.x - self.min.x, 2);
        let half_y: i64 = floor_div(self.max.y - self.min.y, 2);
        Fixed2 { x: self.min.x + half_x, y: self.min.y + half_y }
    }

    /// The grid cell of the rect's center: its minimum grid cell plus half
    /// its grid size.
    pub fn grid_center(&self) -> (r: Index2)
        requires
            self.wf(),
        ensures
            r.x == self.spec_grid_min_x() + self.spec_grid_width() / 2,
            r.y == self.spec_grid_min_y() + self.spec_grid_height() / 2,
    {
        let min: Index2 = self.grid_min();
        let size: Size2 = self.grid_size();
        Index2 { x: min.x + ((size.x / 2) as i64), y: min.y + ((size.y / 2) as i64) }
    }

    /// Move the rect's center, keeping its size. The new minimum corner is
    /// the center less half the size, floored to a subunit.
    pub fn set_center(&mut self, pos: Fixed2)
        requires
            old(self).wf(),
            -RECT_HALF_LIMIT <= pos.x <= RECT_HALF_LIMIT,
            -RECT_HALF_LIMIT <= pos.y <= RECT_HALF_LIMIT,
            old(self).max.x - old(self).min.x <= RECT_HALF_LIMIT,
            old(self).max.y - old(self).min.y <= RECT_HALF_LIMIT,
        ensures
            final(self).wf(),
            final(self).min.x == pos.x - (old(self).max.x - old(self).min.x) / 2,
            final(self).min.y == pos.y - (old(self).max.y - old(self).min.y) / 2,
            final(self).max.x == final(self).min.x + (old(self).max.x - old(self).min.x),
            final(self).max.y == final(self).min.y + (old(self).max.y - old(self).min.y),
    {
        let half_x: i64 = floor_div(self.max.x - self.min.x, 2);
        let half_y: i64 = floor_div(self.max.y - self.min.y, 2);
        let new_pos: Fixed2 = Fixed2 { x: pos.x - half_x, y: pos.y - half_y };
        self.set_position(new_pos);
    }

    /// Whether this rect overlaps another, as closed intervals on both
    /// axes: rectangles that touch along an edge overlap.
    pub fn overlaps(&self, other: &Rect) -> (r: bool)
        ensures
            r == self.spec_overlaps(*other),
    {
        !(self.max.x < other.min.x || self.min.x > other.max.x || self.max.y < other.min.y
            || self.min.y > other.max.y)
    }

    /// Whether this rect overlaps another on the whole-unit grid: the
    /// closed-interval test over the floored extents.
    pub fn grid_overlaps(&self, other: &Rect) -> (r: bool)
        requires
            self.wf(),
            other.wf(),
        ensures
            r == !(self.spec_grid_max_x() < other.spec_grid_min_x() || self.spec_grid_min_x()
                > other.spec_grid_max_x() || self.spec_grid_max_y() < other.spec_grid_min_y()
                || self.spec_grid_min_y() > other.spec_grid_max_y()),
    {
        let a_min: Index2 = self.grid_min();
        let a_max: Index2 = self.grid_max();
        let b_min: Index2 = other.grid_min();
        let b_max: Index2 = other.grid_max();
        !(a_max.x < b_min.x || a_min.x > b_max.x || a_max.y < b_min.y || a_min.y > b_max.y)
    }

    /// An iterator over all whole-unit grid positions contained in the
    /// rect, row-major with x fastest.
    pub fn iter(&self) -> (it: RectGridIterator)
        requires
            self.wf(),
        ensures
            it.wf(),
            it.min.x == self.spec_grid_min_x(),
            it.min.y == self.spec_grid_min_y(),
            it.width == self.spec_grid_width(),
            it.height == self.spec_grid_height(),
            it.current == 0,
    {
        RectGridIterator::from_rect(self)
    }
}

/// A finite, restartable iterator over the whole-unit grid cells of a
/// rectangle: cell `n` is `min + (n % width, n / width)`, row-major with
/// x fastest.
pub struct RectGridIterator {
    pub min: Index2,
    pub width: u64,
    pub height: u64,
    pub current: u64,
}

impl RectGridIterator {
    /// How many cells the iterator yields in all.
    pub open spec fn len(&self) -> int {
        self.width * self.height
    }

    /// Rows and columns are bounded, the corner cell is in range and the
    /// cursor has not run past the end.
    pub open spec fn wf(&self) -> bool {
        &&& self.width <= u32::MAX
        &&& self.height <= u32::MAX
        &&& -RECT_LIMIT <= self.min.x <= RECT_LIMIT
        &&& -RECT_LIMIT <= self.min.y <= RECT_LIMIT
        &&& self.current <= self.len()
    }

    /// The x cell of the `n`th item yielded.
    pub open spec fn item_x(&self, n: int) -> int {
        self.min.x + n % (self.width as int)
    }

    /// The y cell of the `n`th item yielded.
    pub open spec fn item_y(&self, n: int) -> int {
        self.min.y + n / (self.width as int)
    }

    /// Build the iterator for a rect's grid cells.
    pub fn from_rect(rect: &Rect) -> (it: RectGridIterator)
        requires
            rect.wf(),
        ensures
            it.wf(),
            it.min.x == rect.spec_grid_min_x(),
            it.min.y == rect.spec_grid_min_y(),
            it.width == rect.spec_grid_width(),
            it.height == rect.spec_grid_height(),
            it.current == 0,
    {
        let min: Index2 = rect.grid_min();
        let size: Size2 = rect.grid_size();
        RectGridIterator {
            min,
            width: size.x as u64,
            height: size.y as u64,
            current: 0,
        }
    }

    /// Yield the next grid cell, or `None` once every cell has been
    /// yielded.
    pub fn next(&mut self) -> (r: Option<Index2>)
        requires
            old(self).wf(),
        ensures
            final(self).wf(),
            old(self).current < old(self).len() ==> {
                &&& r matches Some(p)
                &&& p.x == old(self).item_x(old(self).current as int)
                &&& p.y == old(self).item_y(old(self).current as int)
                &&& *final(self) == RectGridIterator {
                    current: (old(self).current + 1) as u64,
                    ..*old(self)
                }
            },
            old(self).current >= old(self).len() ==> r is None && *final(self) == *old(self),
    {
        proof {
            lemma_mul_upper_bound(
                self.width as int,
                u32::MAX as int,
                self.height as int,
                u32::MAX as int,
            );
        }
        let length: u64 = self.width * self.height;
        if self.current < length {
            let i: u64 = self.current;
            proof {
                if self.width == 0 {
                    assert(self.width * self.height == 0) by (nonlinear_arith)
                        requires
                            self.width == 0,
                    ;
                }
                lemma_row_col(i as int, self.width as int, self.height as int);
            }
            let col: u64 = i % self.width;
            let row: u64 = i / self.width;
            self.current = i + 1;
            Some(Index2 { x: self.min.x + (col as i64), y: self.min.y + (row as i64) })
        } else {
            None
        }
    }
}

/// A finite, restartable iterator over the continuous positions of the
/// grid cells of a rectangle: the rect's minimum extent plus whole-unit
/// offsets, row-major with x fastest.
pub struct RectIterator {
    pub it: TilePosIterator,
}

impl RectIterator {
    /// The underlying lattice iterator is well-formed.
    pub open spec fn wf(&self) -> bool {
        self.it.wf()
    }

    /// Build the iterator for a rect's cell positions.
    pub fn from_rect(rect: &Rect) -> (it: RectIterator)
        requires
            rect.wf(),
        ensures
            it.wf(),
            it.it.origin == rect.min,
            it.it.step.x == SUBUNITS_PER_UNIT && it.it.step.y == SUBUNITS_PER_UNIT,
            it.it.width == rect.spec_grid_width(),
            it.it.height == rect.spec_grid_height(),
            it.it.current == 0,
    {
        let size: Size2 = rect.grid_size();
        proof {
            lemma_mul_upper_bound(
                size.x as int,
                u32::MAX as int,
                SUBUNITS_PER_UNIT as int,
                SUBUNITS_PER_UNIT as int,
            );
            lemma_mul_upper_bound(
                size.y as int,
                u32::MAX as int,
                SUBUNITS_PER_UNIT as int,
                SUBUNITS_PER_UNIT as int,
            );
        }
        RectIterator {
            it: TilePosIterator {
                origin: rect.min,
                step: Fixed2 { x: SUBUNITS_PER_UNIT, y: SUBUNITS_PER_UNIT },
                width: size.x as u64,
                height: size.y as u64,
                current: 0,
            },
        }
    }

    /// Yield the next cell position, or `None` once every cell has been
    /// yielded.
    pub fn next(&mut self) -> (r: Option<Fixed2>)
        requires
            old(self).wf(),
        ensures
            final(self).wf(),
            old(self).it.current < old(self).it.len() ==> {
                &&& r matches Some(p)
                &&& p.x == old(self).it.item_x(old(self).it.current as int)
                &&& p.y == old(self).it.item_y(old(self).it.current as int)
                &&& *final(self) == RectIterator {
                    it: TilePosIterator {
                        current: (old(self).it.current + 1) as u64,
                        ..old(self).it
                    },
                }
            },
            old(self).it.current >= old(self).it.len() ==> r is None && *final(self) == *old(self),
    {
        self.it.next()
    }
}

} // verus!
