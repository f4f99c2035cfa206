use tiled_camera::Fixed2;
use tiled_camera::Index2;
use tiled_camera::Size2;
use tiled_camera::SizedGrid;
use tiled_camera::TiledCamera;

fn sub(v: f64) -> i64 {
    (v * 1000.0).round() as i64
}

fn fx(x: f64, y: f64) -> Fixed2 {
    Fixed2 { x: sub(x), y: sub(y) }
}

fn sz(x: u32, y: u32) -> Size2 {
    Size2 { x, y }
}

/// Every in-bounds index survives the trip to a world position and back,
/// for centered and uncentered grids and a moved camera.
#[test]
fn round_trip_all_indices() {
    let transforms = [fx(0.0, 0.0), fx(3.0, -7.5), fx(-123.25, 41.0)];
    let grids = [
        SizedGrid::new(sz(3, 3)).unwrap(),
        SizedGrid::new(sz(4, 4)).unwrap(),
        SizedGrid::new(sz(5, 2)).unwrap(),
        SizedGrid::new_uncentered(sz(3, 4)).unwrap(),
    ];
    for grid in grids.iter() {
        for t in transforms.iter() {
            for x in -6..6i64 {
                for y in -6..6i64 {
                    let i = Index2 { x, y };
                    if grid.tile_in_bounds(i) {
                        let w = grid.tile_to_world(*t, i).unwrap();
                        assert_eq!(grid.world_to_tile(*t, w), Some(i));
                    } else {
                        assert!(grid.tile_to_world(*t, i).is_none());
                    }
                }
            }
        }
    }
}

/// The scaled round trip holds through the camera too, in both world
/// spaces: index to world tile position and back to the index.
#[test]
fn round_trip_scaled() {
    let cams = [
        TiledCamera::unit_cam(sz(4, 3), sz(8, 8)).unwrap(),
        TiledCamera::pixel_cam(sz(4, 3), sz(8, 8)).unwrap(),
        TiledCamera::pixel_cam(sz(5, 5), sz(3, 12)).unwrap(),
    ];
    let t = fx(10.0, -2.5);
    for cam in cams.iter() {
        for x in -4..4i64 {
            for y in -4..4i64 {
                let i = Index2 { x, y };
                if let Some(w) = cam.index_to_tile_pos(t, i) {
                    let back = cam.world_to_index(t, w);
                    assert_eq!((back.x, back.y), (x, y));
                }
            }
        }
    }
}

/// A centered axis with an even tile count carries a half-unit parity
/// offset; an odd one carries none. The offset shows in tile (0,0)'s
/// corner: minus half a unit on odd axes, zero on even axes.
#[test]
fn parity_offset_by_count() {
    for count in 1..12u32 {
        let grid = SizedGrid::new(sz(count, count)).unwrap();
        let p = grid.tile_to_local(Index2 { x: 0, y: 0 });
        if count % 2 == 0 {
            assert_eq!((p.x, p.y), (0, 0));
        } else {
            assert_eq!((p.x, p.y), (sub(-0.5), sub(-0.5)));
        }
    }
    // mixed parity applies per axis
    let grid = SizedGrid::new(sz(3, 2)).unwrap();
    let p = grid.tile_to_local(Index2 { x: 0, y: 0 });
    assert_eq!((p.x, p.y), (sub(-0.5), 0));
}

/// A tile's center is its corner plus half a unit on each axis, for every
/// in-bounds index.
#[test]
fn center_is_corner_plus_half() {
    let grids = [
        SizedGrid::new(sz(3, 3)).unwrap(),
        SizedGrid::new(sz(4, 4)).unwrap(),
        SizedGrid::new_uncentered(sz(2, 5)).unwrap(),
    ];
    let t = fx(4.0, 4.0);
    for grid in grids.iter() {
        for x in -3..5i64 {
            for y in -3..5i64 {
                let i = Index2 { x, y };
                if grid.tile_in_bounds(i) {
                    let corner = grid.tile_to_world(t, i).unwrap();
                    let center = grid.tile_to_tile_center_world(t, i).unwrap();
                    assert_eq!(center.x, corner.x + sub(0.5));
                    assert_eq!(center.y, corner.y + sub(0.5));
                }
            }
        }
    }
}

/// A centered grid spans an interval symmetric about the local origin on
/// each axis; an uncentered grid starts at the origin.
#[test]
fn centered_grid_symmetry() {
    for (w, h) in [(3u32, 3u32), (4, 4), (5, 2), (1, 1), (8, 7)] {
        let g = SizedGrid::new(sz(w, h)).unwrap();
        // find the smallest in-bounds index per axis by scanning
        let mut mx = -10i64;
        while !g.tile_in_bounds(Index2 { x: mx, y: 0 }) {
            mx += 1;
        }
        let mut my = -10i64;
        while !g.tile_in_bounds(Index2 { x: mx, y: my }) {
            my += 1;
        }
        let lo = g.tile_to_local(Index2 { x: mx, y: my });
        let hi = g.tile_to_local(Index2 { x: mx + w as i64, y: my + h as i64 });
        assert_eq!(lo.x, -hi.x);
        assert_eq!(lo.y, -hi.y);
    }
    let g = SizedGrid::new_uncentered(sz(6, 9)).unwrap();
    let lo = g.tile_to_local(Index2 { x: 0, y: 0 });
    assert_eq!((lo.x, lo.y), (0, 0));
    assert!(g.tile_in_bounds(Index2 { x: 0, y: 0 }));
    assert!(!g.tile_in_bounds(Index2 { x: -1, y: 0 }));
}

/// The zoom is at least one for every window size, including windows
/// smaller than the target, and both viewport axes scale by the same zoom.
#[test]
fn zoom_at_least_one_and_uniform() {
    let windows = [(1, 1), (59, 480), (60, 60), (100, 100), (641, 359), (1920, 1080)];
    for (wx, wy) in windows.iter() {
        let mut cam = TiledCamera::unit_cam(sz(6, 6), sz(10, 10)).unwrap();
        let info = cam.update_viewport(sz(*wx, *wy));
        assert!(info.zoom >= 1);
        assert_eq!(info.viewport_size.x, 60 * info.zoom);
        assert_eq!(info.viewport_size.y, 60 * info.zoom);
    }
}

/// Whenever the window covers the target resolution on both axes, the
/// viewport fits inside the window on both axes. A smaller window is the
/// designed exception: the viewport keeps the target size and the art is
/// cropped, as in the (50, 50) window below.
#[test]
fn viewport_within_window() {
    let windows = [(60, 60), (100, 73), (119, 119), (640, 480), (1921, 1087)];
    for (wx, wy) in windows.iter() {
        let mut cam = TiledCamera::unit_cam(sz(6, 6), sz(10, 10)).unwrap();
        let info = cam.update_viewport(sz(*wx, *wy));
        assert!(info.viewport_size.x <= *wx);
        assert!(info.viewport_size.y <= *wy);
        assert!(info.viewport_position.x + info.viewport_size.x <= *wx);
        assert!(info.viewport_position.y + info.viewport_size.y <= *wy);
    }
    let mut cam = TiledCamera::unit_cam(sz(6, 6), sz(10, 10)).unwrap();
    let info = cam.update_viewport(sz(50, 50));
    assert!(info.viewport_size.x > 50 && info.viewport_size.y > 50);
}

/// The worked scenario set: odd and even centered grids, an uncentered
/// grid, the two zoom cases, and an out-of-bounds query.
#[test]
fn concrete_scenarios() {
    // tileCount (3,3), centered, camera at the origin
    let g = SizedGrid::new(Size2::new(3, 3)).unwrap();
    let t = Fixed2::zero();
    let p = g.tile_to_world(t, Index2 { x: 0, y: 0 }).unwrap();
    assert_eq!((p.x, p.y), (sub(-0.5), sub(-0.5)));
    let c = g.tile_to_tile_center_world(t, Index2 { x: 0, y: 0 }).unwrap();
    assert_eq!((c.x, c.y), (0, 0));

    // tileCount (2,2)
    let g = SizedGrid::new(sz(2, 2)).unwrap();
    let p = g.tile_to_world(t, Index2 { x: 0, y: 0 }).unwrap();
    assert_eq!((p.x, p.y), (0, 0));
    let c = g.tile_to_tile_center_world(t, Index2 { x: 0, y: 0 }).unwrap();
    assert_eq!((c.x, c.y), (sub(0.5), sub(0.5)));
    let c = g.tile_to_tile_center_world(t, Index2 { x: -1, y: -1 }).unwrap();
    assert_eq!((c.x, c.y), (sub(-0.5), sub(-0.5)));

    // window (100,100) against target (60,60): zoom 1
    let mut cam = TiledCamera::unit_cam(sz(6, 6), sz(10, 10)).unwrap();
    assert_eq!(cam.update_viewport(sz(100, 100)).zoom, 1);

    // window (160,160) against target (80,80): zoom 2, anchored full fit
    let mut cam = TiledCamera::unit_cam(sz(10, 10), sz(8, 8)).unwrap();
    let info = cam.update_viewport(sz(160, 160));
    assert_eq!(info.zoom, 2);
    assert_eq!((info.viewport_size.x, info.viewport_size.y), (160, 160));
    assert_eq!((info.viewport_position.x, info.viewport_position.y), (0, 0));

    // uncentered (3,3): the center of tile (0,0) is (0.5, 0.5)
    let g = SizedGrid::new_uncentered(sz(3, 3)).unwrap();
    let c = g.tile_to_tile_center_world(t, Index2 { x: 0, y: 0 }).unwrap();
    assert_eq!((c.x, c.y), (sub(0.5), sub(0.5)));

    // centered (3,3): index (2,2) exceeds the [-1,2) range and is rejected
    let g = SizedGrid::new(sz(3, 3)).unwrap();
    assert!(g.tile_to_world(t, Index2 { x: 2, y: 2 }).is_none());
}
