//! A camera over a virtual tile grid: the integer viewport scaler and the
//! world/tile/screen transforms that consult its cached result.
//!
//! The scaler picks the largest integer zoom that fits the target
//! resolution (tiles times pixels per tile) into the window, the same
//! factor on both axes so pixels stay square, then sizes and places the
//! viewport. The screen transforms invert the fixed-vertical orthographic
//! projection this scaler configures, centered on the camera, over the
//! viewport sub-rectangle rather than the whole window.

use vstd::prelude::*;
use vstd::arithmetic::div_mod::lemma_fundamental_div_mod;
use vstd::arithmetic::mul::lemma_mul_is_commutative;
use vstd::arithmetic::mul::lemma_mul_inequality;
use vstd::arithmetic::mul::lemma_mul_upper_bound;
use crate::coords::Fixed2;
use crate::coords::HALF_UNIT;
use crate::coords::Index2;
use crate::coords::POS_LIMIT;
use crate::coords::SPAN_LIMIT;
use crate::coords::SUBUNITS_PER_UNIT;
use crate::coords::Size2;
use crate::coords::cam_in_range;
use crate::coords::floor_div;
use crate::coords::pos_in_range;
use crate::coords::round_to_pixel;
use crate::coords::spec_round_to_pixel;
use crate::sized_grid::SizedGrid;
use crate::sized_grid::TileCenterIterator;
use crate::sized_grid::TilePosIterator;
use crate::world_grid::WorldGrid;
use crate::world_grid::WorldSpace;

verus! {

/// The integer zoom for fitting a target resolution into a window: the
/// smaller of the two per-axis floors, clamped to at least one, so the art
/// is cropped rather than shrunk below one pixel per texel.
pub open spec fn spec_zoom(tres_x: int, tres_y: int, wres_x: int, wres_y: int) -> int {
    let zx = wres_x / tres_x;
    let zy = wres_y / tres_y;
    let z = if zx <= zy {
        zx
    } else {
        zy
    };
    if z < 1 {
        1
    } else {
        z
    }
}

/// What one viewport recomputation hands back to the host: the values it
/// writes to the renderer's camera alongside caching them here.
///
/// `ortho_height` is the vertical extent, in world units, of the
/// fixed-vertical orthographic projection: the tile count in `Units` space,
/// the target resolution in `Pixels` space.
#[derive(Clone, Copy, Debug, PartialEq, Eq, Structural)]
pub struct ViewportInfo {
    pub zoom: u32,
    pub viewport_position: Size2,
    pub viewport_size: Size2,
    pub ortho_height: u32,
}

/// A camera with a virtual tile grid for displaying low-resolution pixel
/// art, carrying the zoom and viewport rectangle of the last recomputation.
///
/// Transforms that consult the cached viewport are only meaningful after
/// [`TiledCamera::update_viewport`] has run for the current window size;
/// recompute eagerly on every resize or parameter change.
#[derive(Clone, Copy, Debug)]
pub struct TiledCamera {
    /// World grid used for transforming positions.
    pub grid: WorldGrid,
    /// Camera zoom from the last viewport update.
    pub zoom: u32,
    /// Viewport size in pixels from the last viewport update.
    pub vp_size: Size2,
    /// Viewport position in pixels from the last viewport update.
    pub vp_pos: Size2,
}

impl TiledCamera {
    /// The grid is well-formed and the cached zoom is at least one.
    pub open spec fn wf(&self) -> bool {
        &&& self.grid.wf()
        &&& self.zoom >= 1
        &&& self.zoom * self.grid.pixels_per_tile.y <= u32::MAX
    }

    /// The target resolution on the x axis, in pixels.
    pub open spec fn target_res_x(&self) -> int {
        self.grid.grid.tile_count.x * self.grid.pixels_per_tile.x
    }

    /// The target resolution on the y axis, in pixels.
    pub open spec fn target_res_y(&self) -> int {
        self.grid.grid.tile_count.y * self.grid.pixels_per_tile.y
    }

    /// The vertical extent, in world units, of the orthographic projection.
    pub open spec fn spec_ortho_height(&self) -> int {
        if self.grid.world_space is Units {
            self.grid.grid.tile_count.y as int
        } else {
            self.target_res_y()
        }
    }

    /// Screen pixels per world unit under the cached zoom: a tile's worth
    /// of pixels in `Units` space, one texel's worth in `Pixels` space.
    pub open spec fn pixels_per_world_unit(&self) -> int {
        if self.grid.world_space is Units {
            self.grid.pixels_per_tile.y * self.zoom
        } else {
            self.zoom as int
        }
    }

    /// Whether a screen position lies inside the cached viewport rectangle.
    pub open spec fn viewport_contains(&self, screen: Fixed2) -> bool {
        &&& 0 <= screen.x - self.vp_pos.x * SUBUNITS_PER_UNIT <= self.vp_size.x
            * SUBUNITS_PER_UNIT
        &&& 0 <= screen.y - self.vp_pos.y * SUBUNITS_PER_UNIT <= self.vp_size.y
            * SUBUNITS_PER_UNIT
    }

    /// The world x coordinate, in subunits, of a screen position: its offset
    /// from the viewport center, floored over pixels per world unit, from
    /// the camera's position.
    pub open spec fn spec_screen_to_world_x(&self, sx: int, cam_x: int) -> int {
        cam_x + (sx - self.vp_pos.x * SUBUNITS_PER_UNIT - self.vp_size.x * HALF_UNIT)
            / self.pixels_per_world_unit()
    }

    /// The world y coordinate, in subunits, of a screen position.
    pub open spec fn spec_screen_to_world_y(&self, sy: int, cam_y: int) -> int {
        cam_y + (sy - self.vp_pos.y * SUBUNITS_PER_UNIT - self.vp_size.y * HALF_UNIT)
            / self.pixels_per_world_unit()
    }

    /// The exact (unrounded) screen x coordinate, in subunits, of a world
    /// position: its offset from the camera, scaled to pixels, from the
    /// viewport center.
    pub open spec fn screen_exact_x(&self, wx: int, cam_x: int) -> int {
        self.vp_pos.x * SUBUNITS_PER_UNIT + self.vp_size.x * HALF_UNIT + (wx - cam_x)
            * self.pixels_per_world_unit()
    }

    /// The exact (unrounded) screen y coordinate, in subunits, of a world
    /// position.
    pub open spec fn screen_exact_y(&self, wy: int, cam_y: int) -> int {
        self.vp_pos.y * SUBUNITS_PER_UNIT + self.vp_size.y * HALF_UNIT + (wy - cam_y)
            * self.pixels_per_world_unit()
    }

    /// Create a camera in `Units` space: centered grid, zoom one, a
    /// one-pixel viewport at the origin until the first recomputation.
    ///
    /// Returns `None` exactly when an axis of `tile_count` or of
    /// `pixels_per_tile` is zero.
    pub fn unit_cam(tile_count: Size2, pixels_per_tile: Size2) -> (r: Option<TiledCamera>)
        requires
            tile_count.x * pixels_per_tile.x <= u32::MAX,
            tile_count.y * pixels_per_tile.y <= u32::MAX,
        ensures
            r is Some <==> tile_count.x >= 1 && tile_count.y >= 1 && pixels_per_tile.x >= 1
                && pixels_per_tile.y >= 1,
            r matches Some(c) ==> c.wf() && c.grid.world_space is Units
                && c.grid.grid.tile_count == tile_count && c.grid.grid.centered
                && c.grid.pixels_per_tile == pixels_per_tile && c.zoom == 1 && c.vp_size == (
            Size2 { x: 1, y: 1 }) && c.vp_pos == (Size2 { x: 0, y: 0 }),
    {
        match WorldGrid::unit_grid(tile_count, pixels_per_tile) {
            Some(grid) => Some(
                TiledCamera {
                    grid,
                    zoom: 1,
                    vp_size: Size2 { x: 1, y: 1 },
                    vp_pos: Size2 { x: 0, y: 0 },
                },
            ),
            None => None,
        }
    }

    /// Create a camera in `Pixels` space: centered grid, zoom one, a
    /// one-pixel viewport at the origin until the first recomputation.
    ///
    /// Returns `None` exactly when an axis of `tile_count` or of
    /// `pixels_per_tile` is zero.
    pub fn pixel_cam(tile_count: Size2, pixels_per_tile: Size2) -> (r: Option<TiledCamera>)
        requires
            tile_count.x * pixels_per_tile.x <= u32::MAX,
            tile_count.y * pixels_per_tile.y <= u32::MAX,
        ensures
            r is Some <==> tile_count.x >= 1 && tile_count.y >= 1 && pixels_per_tile.x >= 1
                && pixels_per_tile.y >= 1,
            r matches Some(c) ==> c.wf() && c.grid.world_space is Pixels
                && c.grid.grid.tile_count == tile_count && c.grid.grid.centered
                && c.grid.pixels_per_tile == pixels_per_tile && c.zoom == 1 && c.vp_size == (
            Size2 { x: 1, y: 1 }) && c.vp_pos == (Size2 { x: 0, y: 0 }),
    {
        match WorldGrid::pixel_grid(tile_count, pixels_per_tile) {
            Some(grid) => Some(
                TiledCamera {
                    grid,
                    zoom: 1,
                    vp_size: Size2 { x: 1, y: 1 },
                    vp_pos: Size2 { x: 0, y: 0 },
                },
            ),
            None => None,
        }
    }

    /// Retrieve the target resolution of the camera, in pixels: the tile
    /// count times the pixels per tile, per axis.
    pub fn target_resolution(&self) -> (r: Size2)
        requires
            self.wf(),
        ensures
            r.x == self.target_res_x(),
            r.y == self.target_res_y(),
    {
        Size2 {
            x: self.grid.grid.tile_count.x * self.grid.pixels_per_tile.x,
            y: self.grid.grid.tile_count.y * self.grid.pixels_per_tile.y,
        }
    }

    /// The camera's tile count.
    pub fn tile_count(&self) -> (r: Size2)
        ensures
            r == self.grid.grid.tile_count,
    {
        self.grid.grid.tile_count
    }

    /// The camera's pixels per tile.
    pub fn pixels_per_tile(&self) -> (r: Size2)
        ensures
            r == self.grid.pixels_per_tile,
    {
        self.grid.pixels_per_tile
    }

    /// Whether the camera's grid is centered.
    pub fn centered(&self) -> (r: bool)
        ensures
            r == self.grid.grid.centered,
    {
        self.grid.grid.centered
    }

    /// How much the camera view is scaled up, from the last viewport
    /// recomputation.
    pub fn zoom(&self) -> (r: u32)
        ensures
            r == self.zoom,
    {
        self.zoom
    }

    /// Get the camera's world space.
    pub fn world_space(&self) -> (r: WorldSpace)
        ensures
            r == self.grid.world_space,
    {
        self.grid.world_space
    }

    /// Change the camera's world space.
    pub fn set_world_space(&mut self, world_space: WorldSpace)
        requires
            old(self).wf(),
        ensures
            final(self).wf(),
            *final(self) == (TiledCamera {
                grid: WorldGrid { world_space, ..old(self).grid },
                ..*old(self)
            }),
    {
        self.grid.world_space = world_space;
    }

    /// Retrieve the camera's world grid.
    pub fn world_grid(&self) -> (r: &WorldGrid)
        ensures
            *r == self.grid,
    {
        &self.grid
    }

    /// Get the world size of one tile, or `None`, by the camera's world
    /// space: unit-sized art spans a tile in `Units` space, while `Pixels`
    /// space callers size art by its native texel dimensions instead.
    pub fn unit_size(&self) -> (r: Option<Fixed2>)
        requires
            self.wf(),
        ensures
            self.grid.world_space is Units ==> (r matches Some(p) && p.x == SUBUNITS_PER_UNIT
                && p.y == SUBUNITS_PER_UNIT),
            self.grid.world_space is Pixels ==> r is None,
    {
        match self.grid.world_space {
            WorldSpace::Units => Some(self.grid.tile_size_world()),
            WorldSpace::Pixels => None,
        }
    }

    /// Replace the tile count, rederiving the grid's parity offset.
    ///
    /// Applies the change and returns true exactly when the new count is
    /// nonzero and keeps the target resolution within `u32` per axis; on
    /// false the camera is unchanged.
    pub fn set_tile_count(&mut self, tile_count: Size2) -> (applied: bool)
        requires
            old(self).wf(),
        ensures
            final(self).wf(),
            applied <==> tile_count.x >= 1 && tile_count.y >= 1 && tile_count.x * old(self).grid.pixels_per_tile.x <= u32::MAX && tile_count.y * old(self).grid.pixels_per_tile.y <= u32::MAX,
            applied ==> final(self).grid.grid.tile_count == tile_count
                && final(self).grid.grid.centered == old(self).grid.grid.centered
                && final(self).grid.grid.wf() && final(self).grid.pixels_per_tile == old(self).grid.pixels_per_tile && final(self).grid.world_space == old(self).grid.world_space
                && final(self).zoom == old(self).zoom && final(self).vp_size == old(self).vp_size
                && final(self).vp_pos == old(self).vp_pos,
            !applied ==> *final(self) == *old(self),
    {
        if tile_count.x == 0 || tile_count.y == 0 {
            return false;
        }
        proof {
            lemma_mul_upper_bound(
                tile_count.x as int,
                u32::MAX as int,
                self.grid.pixels_per_tile.x as int,
                u32::MAX as int,
            );
            lemma_mul_upper_bound(
                tile_count.y as int,
                u32::MAX as int,
                self.grid.pixels_per_tile.y as int,
                u32::MAX as int,
            );
        }
        let fits_x: bool = (tile_count.x as u64) * (self.grid.pixels_per_tile.x as u64) <= (
        u32::MAX as u64);
        let fits_y: bool = (tile_count.y as u64) * (self.grid.pixels_per_tile.y as u64) <= (
        u32::MAX as u64);
        if !fits_x || !fits_y {
            return false;
        }
        let rebuilt: Option<SizedGrid> = if self.grid.grid.centered {
            SizedGrid::new(tile_count)
        } else {
            SizedGrid::new_uncentered(tile_count)
        };
        match rebuilt {
            Some(g) => {
                self.grid.grid = g;
                true
            },
            None => false,
        }
    }

    /// Replace the pixels per tile.
    ///
    /// Applies the change and returns true exactly when the new value is
    /// nonzero and keeps the target resolution within `u32` per axis; on
    /// false the camera is unchanged.
    pub fn set_pixels_per_tile(&mut self, pixels_per_tile: Size2) -> (applied: bool)
        requires
            old(self).wf(),
        ensures
            final(self).wf(),
            applied <==> pixels_per_tile.x >= 1 && pixels_per_tile.y >= 1 && old(self).grid.grid.tile_count.x * pixels_per_tile.x <= u32::MAX && old(self).grid.grid.tile_count.y * pixels_per_tile.y <= u32::MAX && old(self).zoom
                * pixels_per_tile.y <= u32::MAX,
            applied ==> *final(self) == (TiledCamera {
                grid: WorldGrid { pixels_per_tile, ..old(self).grid },
                ..*old(self)
            }),
            !applied ==> *final(self) == *old(self),
    {
        if pixels_per_tile.x == 0 || pixels_per_tile.y == 0 {
            return false;
        }
        proof {
            lemma_mul_upper_bound(
                self.grid.grid.tile_count.x as int,
                u32::MAX as int,
                pixels_per_tile.x as int,
                u32::MAX as int,
            );
            lemma_mul_upper_bound(
                self.grid.grid.tile_count.y as int,
                u32::MAX as int,
                pixels_per_tile.y as int,
                u32::MAX as int,
            );
            lemma_mul_upper_bound(
                self.zoom as int,
                u32::MAX as int,
                pixels_per_tile.y as int,
                u32::MAX as int,
            );
        }
        let fits_x: bool = (self.grid.grid.tile_count.x as u64) * (pixels_per_tile.x as u64) <= (
        u32::MAX as u64);
        let fits_y: bool = (self.grid.grid.tile_count.y as u64) * (pixels_per_tile.y as u64) <= (
        u32::MAX as u64);
        let fits_zoom: bool = (self.zoom as u64) * (pixels_per_tile.y as u64) <= (u32::MAX as u64);
        if !fits_x || !fits_y || !fits_zoom {
            return false;
        }
        self.grid.pixels_per_tile = pixels_per_tile;
        true
    }

    /// Change whether the grid is centered, rederiving the parity offset.
    pub fn set_centered(&mut self, centered: bool)
        requires
            old(self).wf(),
        ensures
            final(self).wf(),
            final(self).grid.grid.tile_count == old(self).grid.grid.tile_count,
            final(self).grid.grid.centered == centered,
            final(self).grid.pixels_per_tile == old(self).grid.pixels_per_tile,
            final(self).grid.world_space == old(self).grid.world_space,
            final(self).zoom == old(self).zoom,
            final(self).vp_size == old(self).vp_size,
            final(self).vp_pos == old(self).vp_pos,
    {
        let count: Size2 = self.grid.grid.tile_count;
        let rebuilt: Option<SizedGrid> = if centered {
            SizedGrid::new(count)
        } else {
            SizedGrid::new_uncentered(count)
        };
        match rebuilt {
            Some(g) => {
                self.grid.grid = g;
            },
            None => {
            },
        }
    }

    /// Transform from world space to camera-local space.
    pub fn world_to_local(&self, cam_transform: Fixed2, world_pos: Fixed2) -> (r: Fixed2)
        requires
            cam_in_range(cam_transform),
            pos_in_range(world_pos),
        ensures
            r.x == world_pos.x - cam_transform.x,
            r.y == world_pos.y - cam_transform.y,
    {
        Fixed2 { x: world_pos.x - cam_transform.x, y: world_pos.y - cam_transform.y }
    }

    /// Transform from camera-local space to world space.
    pub fn local_to_world(&self, cam_transform: Fixed2, local_pos: Fixed2) -> (r: Fixed2)
        requires
            cam_in_range(cam_transform),
            pos_in_range(local_pos),
        ensures
            r.x == local_pos.x + cam_transform.x,
            r.y == local_pos.y + cam_transform.y,
    {
        Fixed2 { x: local_pos.x + cam_transform.x, y: local_pos.y + cam_transform.y }
    }

    /// Convert a world position to its virtual tile index, relative to the
    /// camera center. Never fails: a cursor outside the grid yields an
    /// out-of-bounds index, which callers test separately.
    pub fn world_to_index(&self, cam_transform: Fixed2, world_pos: Fixed2) -> (r: Index2)
        requires
            self.wf(),
            cam_in_range(cam_transform),
            pos_in_range(world_pos),
        ensures
            r.x == self.grid.index_of_local_x(world_pos.x - cam_transform.x),
            r.y == self.grid.index_of_local_y(world_pos.y - cam_transform.y),
    {
        let local: Fixed2 = self.world_to_local(cam_transform, world_pos);
        self.grid.pos_to_index(local)
    }

    /// Convert a world position to the world position of the bottom-left
    /// corner of the tile containing it. Never fails.
    pub fn world_to_tile(&self, cam_transform: Fixed2, world_pos: Fixed2) -> (r: Fixed2)
        requires
            self.wf(),
            cam_in_range(cam_transform),
            pos_in_range(world_pos),
        ensures
            r.x == self.grid.local_of_index_x(
                self.grid.index_of_local_x(world_pos.x - cam_transform.x),
            ) + cam_transform.x,
            r.y == self.grid.local_of_index_y(
                self.grid.index_of_local_y(world_pos.y - cam_transform.y),
            ) + cam_transform.y,
    {
        let local: Fixed2 = self.world_to_local(cam_transform, world_pos);
        let corner: Fixed2 = self.grid.pos_to_tile_pos(local);
        Fixed2 { x: corner.x + cam_transform.x, y: corner.y + cam_transform.y }
    }

    /// Convert a tile index to the world position of the tile's bottom-left
    /// corner, or `None` when the index is out of bounds.
    pub fn index_to_tile_pos(&self, cam_transform: Fixed2, pos: Index2) -> (r: Option<Fixed2>)
        requires
            self.wf(),
            cam_in_range(cam_transform),
        ensures
            r is Some <==> self.grid.grid.in_bounds(pos.x as int, pos.y as int),
            r matches Some(p) ==> p.x == self.grid.local_of_index_x(pos.x as int)
                + cam_transform.x && p.y == self.grid.local_of_index_y(pos.y as int)
                + cam_transform.y,
    {
        match self.grid.index_to_pos(pos) {
            Some(p) => Some(Fixed2 { x: p.x + cam_transform.x, y: p.y + cam_transform.y }),
            None => None,
        }
    }

    /// Return the world position of the center of the tile at the given
    /// index, or `None` when the index is out of bounds.
    pub fn index_to_tile_center(&self, cam_transform: Fixed2, index: Index2) -> (r: Option<Fixed2>)
        requires
            self.wf(),
            cam_in_range(cam_transform),
        ensures
            r is Some <==> self.grid.grid.in_bounds(index.x as int, index.y as int),
            r matches Some(p) ==> p.x == self.grid.center_of_index_x(index.x as int)
                + cam_transform.x && p.y == self.grid.center_of_index_y(index.y as int)
                + cam_transform.y,
    {
        match self.grid.index_to_tile_center(index) {
            Some(p) => Some(Fixed2 { x: p.x + cam_transform.x, y: p.y + cam_transform.y }),
            None => None,
        }
    }

    /// An iterator over the world position of the bottom-left corner of
    /// every virtual tile, row-major with x fastest.
    pub fn tile_pos_iter(&self, cam_transform: Fixed2) -> (it: TilePosIterator)
        requires
            self.wf(),
            cam_in_range(cam_transform),
        ensures
            it.wf(),
            it.origin.x == self.grid.local_of_index_x(self.grid.grid.min_index_x())
                + cam_transform.x,
            it.origin.y == self.grid.local_of_index_y(self.grid.grid.min_index_y())
                + cam_transform.y,
            it.step.x == SUBUNITS_PER_UNIT * self.grid.scale_x(),
            it.step.y == SUBUNITS_PER_UNIT * self.grid.scale_y(),
            it.width == self.grid.grid.tile_count.x && it.height == self.grid.grid.tile_count.y,
            it.current == 0,
    {
        let local_iter: TilePosIterator = self.grid.tile_pos_iter();
        let origin: Fixed2 = Fixed2 {
            x: local_iter.origin.x + cam_transform.x,
            y: local_iter.origin.y + cam_transform.y,
        };
        TilePosIterator { origin, ..local_iter }
    }

    /// An iterator over the world position of the center of every virtual
    /// tile, row-major with x fastest.
    pub fn tile_center_iter(&self, cam_transform: Fixed2) -> (it: TileCenterIterator)
        requires
            self.wf(),
            cam_in_range(cam_transform),
        ensures
            it.wf(),
            it.iter.origin.x == self.grid.local_of_index_x(self.grid.grid.min_index_x())
                + cam_transform.x,
            it.iter.origin.y == self.grid.local_of_index_y(self.grid.grid.min_index_y())
                + cam_transform.y,
            it.iter.step.x == SUBUNITS_PER_UNIT * self.grid.scale_x(),
            it.iter.step.y == SUBUNITS_PER_UNIT * self.grid.scale_y(),
            it.iter.width == self.grid.grid.tile_count.x && it.iter.height
                == self.grid.grid.tile_count.y,
            it.iter.current == 0,
            it.offset.x == HALF_UNIT * self.grid.scale_x(),
            it.offset.y == HALF_UNIT * self.grid.scale_y(),
    {
        let local_iter: TileCenterIterator = self.grid.tile_center_iter();
        let origin: Fixed2 = Fixed2 {
            x: local_iter.iter.origin.x + cam_transform.x,
            y: local_iter.iter.origin.y + cam_transform.y,
        };
        TileCenterIterator {
            iter: TilePosIterator { origin, ..local_iter.iter },
            offset: local_iter.offset,
        }
    }

    /// Recompute the zoom, viewport rectangle and orthographic extent for a
    /// window size, cache them, and return them for the host to apply.
    ///
    /// The zoom is the largest integer factor fitting the target resolution
    /// into the window, at least one, the same on both axes. The viewport
    /// spans the target resolution times the zoom; it is centered in the
    /// window when the window strictly exceeds the target resolution on
    /// both axes (flooring the slack, so the offset lands on whole pixels),
    /// else anchored at the origin.
    pub fn update_viewport(&mut self, window_resolution: Size2) -> (info: ViewportInfo)
        requires
            old(self).wf(),
        ensures
            final(self).wf(),
            final(self).grid == old(self).grid,
            final(self).zoom == spec_zoom(
                old(self).target_res_x(),
                old(self).target_res_y(),
                window_resolution.x as int,
                window_resolution.y as int,
            ),
            final(self).zoom >= 1,
            final(self).vp_size.x == old(self).target_res_x() * final(self).zoom,
            final(self).vp_size.y == old(self).target_res_y() * final(self).zoom,
            (window_resolution.x <= old(self).target_res_x() || window_resolution.y <= old(self).target_res_y()) ==> final(self).vp_pos == (Size2 { x: 0, y: 0 }),
            (window_resolution.x > old(self).target_res_x() && window_resolution.y > old(self).target_res_y()) ==> final(self).vp_pos.x == (window_resolution.x - final(self).vp_size.x) / 2 && final(self).vp_pos.y == (window_resolution.y - final(self).vp_size.y) / 2,
            info.zoom == final(self).zoom,
            info.viewport_size == final(self).vp_size,
            info.viewport_position == final(self).vp_pos,
            info.ortho_height == old(self).spec_ortho_height(),
    {
        let count: Size2 = self.grid.grid.tile_count;
        let ppt: Size2 = self.grid.pixels_per_tile;
        proof {
            lemma_target_positive(count.x as int, ppt.x as int);
            lemma_target_positive(count.y as int, ppt.y as int);
        }
        let tres_x: u32 = count.x * ppt.x;
        let tres_y: u32 = count.y * ppt.y;
        let wres: Size2 = window_resolution;
        let zx: u32 = wres.x / tres_x;
        let zy: u32 = wres.y / tres_y;
        let z0: u32 = if zx <= zy {
            zx
        } else {
            zy
        };
        let zoom: u32 = if z0 < 1 {
            1
        } else {
            z0
        };
        proof {
            if zoom > 1 {
                lemma_zoom_fits(tres_x as int, wres.x as int, zoom as int);
                lemma_zoom_fits(tres_y as int, wres.y as int, zoom as int);
                lemma_ppt_zoom_bound(
                    count.y as int,
                    ppt.y as int,
                    wres.y as int,
                    zoom as int,
                );
            }
        }
        let vp_size: Size2 = Size2 { x: tres_x * zoom, y: tres_y * zoom };
        let vp_pos: Size2 = if wres.x <= tres_x || wres.y <= tres_y {
            Size2 { x: 0, y: 0 }
        } else {
            Size2 { x: (wres.x - vp_size.x) / 2, y: (wres.y - vp_size.y) / 2 }
        };
        let ortho_height: u32 = match self.grid.world_space {
            WorldSpace::Units => count.y,
            WorldSpace::Pixels => tres_y,
        };
        self.zoom = zoom;
        self.vp_size = vp_size;
        self.vp_pos = vp_pos;
        ViewportInfo {
            zoom,
            viewport_position: vp_pos,
            viewport_size: vp_size,
            ortho_height,
        }
    }

    /// Convert a screen position (a cursor, in pixels scaled to subunits)
    /// to its world position, or `None` when it falls outside the cached
    /// viewport rectangle.
    ///
    /// Inverts the fixed-vertical orthographic projection that
    /// [`TiledCamera::update_viewport`] configures: centered on the camera
    /// and spanning the viewport sub-rectangle, not the whole window, so a
    /// position is normalized over the viewport before unprojection.
    pub fn screen_to_world(&self, screen_pos: Fixed2, cam_transform: Fixed2) -> (r: Option<Fixed2>)
        requires
            self.wf(),
            pos_in_range(screen_pos),
            cam_in_range(cam_transform),
        ensures
            r is Some <==> self.viewport_contains(screen_pos),
            r matches Some(p) ==> p.x == self.spec_screen_to_world_x(
                screen_pos.x as int,
                cam_transform.x as int,
            ) && p.y == self.spec_screen_to_world_y(screen_pos.y as int, cam_transform.y as int),
    {
        let vx: i64 = (self.vp_pos.x as i64) * SUBUNITS_PER_UNIT;
        let vy: i64 = (self.vp_pos.y as i64) * SUBUNITS_PER_UNIT;
        let px: i64 = screen_pos.x - vx;
        let py: i64 = screen_pos.y - vy;
        let sx: i64 = (self.vp_size.x as i64) * SUBUNITS_PER_UNIT;
        let sy: i64 = (self.vp_size.y as i64) * SUBUNITS_PER_UNIT;
        if px < 0 || px > sx || py < 0 || py > sy {
            return None;
        }
        let ppu: i64 = self.pixels_per_world_unit_exec();
        proof {
            lemma_div_small_bound(px - self.vp_size.x * HALF_UNIT, ppu as int, SPAN_LIMIT as int);
            lemma_div_small_bound(py - self.vp_size.y * HALF_UNIT, ppu as int, SPAN_LIMIT as int);
        }
        let wx: i64 = cam_transform.x + floor_div(px - (self.vp_size.x as i64) * HALF_UNIT, ppu);
        let wy: i64 = cam_transform.y + floor_div(py - (self.vp_size.y as i64) * HALF_UNIT, ppu);
        Some(Fixed2 { x: wx, y: wy })
    }

    /// Convert a world position to its screen position, rounded to the
    /// nearest whole pixel so edge pixels are not blurred.
    ///
    /// The forward transform of the same orthographic projection that
    /// [`TiledCamera::screen_to_world`] inverts: the projection is two
    /// dimensional, so the depth test of a general camera cannot fail and
    /// every in-range position maps to a screen position.
    pub fn world_to_screen(&self, world_pos: Fixed2, cam_transform: Fixed2) -> (r: Fixed2)
        requires
            self.wf(),
            pos_in_range(world_pos),
            cam_in_range(cam_transform),
            -POS_LIMIT <= self.screen_exact_x(world_pos.x as int, cam_transform.x as int)
                <= POS_LIMIT,
            -POS_LIMIT <= self.screen_exact_y(world_pos.y as int, cam_transform.y as int)
                <= POS_LIMIT,
        ensures
            r.x == spec_round_to_pixel(
                self.screen_exact_x(world_pos.x as int, cam_transform.x as int),
            ),
            r.y == spec_round_to_pixel(
                self.screen_exact_y(world_pos.y as int, cam_transform.y as int),
            ),
    {
        let ppu: i64 = self.pixels_per_world_unit_exec();
        let ex: i64 = (self.vp_pos.x as i64) * SUBUNITS_PER_UNIT + (self.vp_size.x as i64)
            * HALF_UNIT + (world_pos.x - cam_transform.x) * ppu;
        let ey: i64 = (self.vp_pos.y as i64) * SUBUNITS_PER_UNIT + (self.vp_size.y as i64)
            * HALF_UNIT + (world_pos.y - cam_transform.y) * ppu;
        Fixed2 { x: round_to_pixel(ex), y: round_to_pixel(ey) }
    }

    fn pixels_per_world_unit_exec(&self) -> (r: i64)
        requires
            self.wf(),
        ensures
            r == self.pixels_per_world_unit(),
            1 <= r <= u32::MAX,
    {
        match self.grid.world_space {
            WorldSpace::Units => {
                proof {
                    lemma_ppu_positive(self.grid.pixels_per_tile.y as int, self.zoom as int);
                    lemma_mul_is_commutative(
                        self.grid.pixels_per_tile.y as int,
                        self.zoom as int,
                    );
                }
                ((self.grid.pixels_per_tile.y as u64) * (self.zoom as u64)) as i64
            },
            WorldSpace::Pixels => self.zoom as i64,
        }
    }
}

impl Default for TiledCamera {
    /// The default camera: 80 by 35 tiles at 8 by 8 pixels per tile,
    /// centered, in `Units` space, before any viewport recomputation.
    fn default() -> (r: TiledCamera)
        ensures
            r.wf(),
            r.grid.grid.tile_count == (Size2 { x: 80, y: 35 }),
            r.grid.pixels_per_tile == (Size2 { x: 8, y: 8 }),
            r.grid.grid.centered,
            r.grid.world_space is Units,
            r.zoom == 1,
            r.vp_size == (Size2 { x: 1, y: 1 }),
            r.vp_pos == (Size2 { x: 0, y: 0 }),
    {
        match TiledCamera::unit_cam(Size2 { x: 80, y: 35 }, Size2 { x: 8, y: 8 }) {
            Some(cam) => cam,
            None => vstd::pervasive::unreached(),
        }
    }
}

/// Zoom law: the integer zoom is at least one for every target and window
/// resolution, and one zoom value scales both axes of the viewport.
pub proof fn lemma_zoom_at_least_one(tres_x: int, tres_y: int, wres_x: int, wres_y: int)
    requires
        1 <= tres_x,
        1 <= tres_y,
    ensures
        spec_zoom(tres_x, tres_y, wres_x, wres_y) >= 1,
{
}

/// Viewport law: when the window is at least the target resolution on both
/// axes, the viewport (target resolution times zoom) fits inside the window
/// on both axes. A window smaller than the target breaks the law by design:
/// the zoom clamps at one and the art is cropped, not shrunk.
pub proof fn lemma_viewport_fits(tres_x: int, tres_y: int, wres_x: int, wres_y: int)
    requires
        1 <= tres_x <= wres_x,
        1 <= tres_y <= wres_y,
    ensures
        tres_x * spec_zoom(tres_x, tres_y, wres_x, wres_y) <= wres_x,
        tres_y * spec_zoom(tres_x, tres_y, wres_x, wres_y) <= wres_y,
{
    let z = spec_zoom(tres_x, tres_y, wres_x, wres_y);
    lemma_div_at_least_one(tres_x, wres_x);
    lemma_div_at_least_one(tres_y, wres_y);
    lemma_zoom_fits(tres_x, wres_x, z);
    lemma_zoom_fits(tres_y, wres_y, z);
    lemma_mul_is_commutative(tres_x, z);
    lemma_mul_is_commutative(tres_y, z);
}

/// A target resolution axis is positive when tiles and pixels per tile are.
proof fn lemma_target_positive(c: int, p: int)
    requires
        1 <= c,
        1 <= p,
    ensures
        1 <= c * p,
{
    assert(1 <= c * p) by (nonlinear_arith)
        requires
            1 <= c,
            1 <= p,
    ;
}

/// A zoom no larger than the floor of window over target keeps the scaled
/// target within the window.
proof fn lemma_zoom_fits(t: int, w: int, z: int)
    requires
        1 <= t,
        0 <= w,
        0 <= z,
        z <= w / t,
    ensures
        z * t <= w,
        t * z <= w,
{
    lemma_mul_inequality(z, w / t, t);
    lemma_fundamental_div_mod(w, t);
    lemma_mul_is_commutative(w / t, t);
    lemma_mul_is_commutative(z, t);
}

/// When the window covers the target, the per-axis zoom floor is at least
/// one.
proof fn lemma_div_at_least_one(t: int, w: int)
    requires
        1 <= t <= w,
    ensures
        w / t >= 1,
{
    lemma_fundamental_div_mod(w, t);
    assert(w / t >= 1) by (nonlinear_arith)
        requires
            w == t * (w / t) + w % t,
            0 <= w % t < t,
            1 <= t <= w,
    ;
}

/// An unclamped zoom keeps pixels per tile times zoom within the window's
/// axis, hence within `u32`.
proof fn lemma_ppt_zoom_bound(c: int, p: int, w: int, z: int)
    requires
        1 <= c,
        1 <= p,
        0 <= w <= u32::MAX,
        1 <= z,
        (c * p) * z <= w,
    ensures
        z * p <= u32::MAX,
{
    assert(z * p <= (c * p) * z) by (nonlinear_arith)
        requires
            1 <= c,
            1 <= p,
            1 <= z,
    ;
}

/// A floor division by a positive divisor of a value within a bound stays
/// within that bound.
proof fn lemma_div_small_bound(a: int, d: int, bound: int)
    requires
        1 <= d,
        0 <= bound,
        -bound <= a <= bound,
    ensures
        -bound <= a / d <= bound,
{
    lemma_fundamental_div_mod(a, d);
    let q = a / d;
    assert(-bound <= q <= bound) by (nonlinear_arith)
        requires
            a == d * q + a % d,
            0 <= a % d < d,
            1 <= d,
            -bound <= a <= bound,
            0 <= bound,
    ;
}

/// Pixels per tile times zoom is positive and fits `u32` under the camera
/// invariant.
proof fn lemma_ppu_positive(p: int, z: int)
    requires
        1 <= p,
        1 <= z,
    ensures
        1 <= p * z,
{
    assert(1 <= p * z) by (nonlinear_arith)
        requires
            1 <= p,
            1 <= z,
    ;
}

} // verus!
