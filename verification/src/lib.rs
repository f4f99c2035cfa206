//! Camera math for displaying a low-resolution tile grid inside an arbitrary
//! window: an integer viewport scaler and bidirectional transforms between
//! world space, camera-local tile-grid space and screen (pixel) space.
//!
//! Continuous coordinates are exact fixed-point values: an `i64` count of
//! subunits, with [`coords::SUBUNITS_PER_UNIT`] subunits to one world unit.
//! Every half-unit tile offset, tile corner and tile center is represented
//! exactly, so the parity-aware centering math is proved, not approximated.

pub mod camera;
pub mod coords;
pub mod rect;
pub mod sized_grid;
pub mod world_grid;

pub use camera::TiledCamera;
pub use camera::ViewportInfo;
pub use coords::Fixed2;
pub use coords::Index2;
pub use coords::Size2;
pub use rect::Rect;
pub use sized_grid::SizedGrid;
pub use world_grid::WorldGrid;
pub use world_grid::WorldSpace;
