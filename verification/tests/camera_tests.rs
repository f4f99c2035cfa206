use tiled_camera::Fixed2;
use tiled_camera::Index2;
use tiled_camera::Size2;
use tiled_camera::TiledCamera;
use tiled_camera::WorldSpace;

fn sub(v: f64) -> i64 {
    (v * 1000.0).round() as i64
}

fn fx(x: f64, y: f64) -> Fixed2 {
    Fixed2 { x: sub(x), y: sub(y) }
}

fn sz(x: u32, y: u32) -> Size2 {
    Size2 { x, y }
}

fn unit_cam(pos: (f64, f64), tile_count: (u32, u32)) -> (Fixed2, TiledCamera) {
    (
        fx(pos.0, pos.1),
        TiledCamera::unit_cam(sz(tile_count.0, tile_count.1), sz(8, 8)).unwrap(),
    )
}

fn make_pixel_cam(pos: (f64, f64), tile_count: (u32, u32)) -> (Fixed2, TiledCamera) {
    (
        fx(pos.0, pos.1),
        TiledCamera::pixel_cam(sz(tile_count.0, tile_count.1), sz(8, 8)).unwrap(),
    )
}

#[test]
fn world_to_index() {
    let (t, cam) = unit_cam((5.0, 5.0), (3, 3));
    let p = cam.world_to_index(t, fx(4.5, 4.5));
    assert_eq!([0, 0], [p.x, p.y]);

    let (t, cam) = unit_cam((5.0, 5.0), (4, 4));
    let p = cam.world_to_index(t, fx(4.5, 4.5));
    assert_eq!([-1, -1], [p.x, p.y]);

    let (t, cam) = make_pixel_cam((16.0, 16.0), (3, 3));
    let p = cam.world_to_index(t, fx(12.0, 12.0));
    assert_eq!([0, 0], [p.x, p.y]);

    let (t, cam) = make_pixel_cam((16.0, 16.0), (4, 4));
    let p = cam.world_to_index(t, fx(12.0, 12.0));
    assert_eq!([-1, -1], [p.x, p.y]);
}

#[test]
fn new() {
    let cam = TiledCamera::pixel_cam(sz(5, 5), sz(8, 8)).unwrap();
    assert_eq!(cam.world_space(), WorldSpace::Pixels);

    let cam = TiledCamera::unit_cam(sz(5, 5), sz(8, 8)).unwrap();
    assert_eq!(cam.world_space(), WorldSpace::Units);
}

#[test]
fn index_to_tile_pos_checked() {
    // in-bounds indices map through the world-space scale and the camera
    // translation; out-of-bounds indices are rejected
    let (t, cam) = make_pixel_cam((5.0, 5.0), (8, 8));
    let p = cam.index_to_tile_pos(t, Index2 { x: 3, y: 3 }).unwrap();
    assert_eq!([p.x, p.y], [sub(29.0), sub(29.0)]);

    let (t, cam) = unit_cam((5.0, 5.0), (8, 8));
    let p = cam.index_to_tile_pos(t, Index2 { x: 3, y: 3 }).unwrap();
    assert_eq!([p.x, p.y], [sub(8.0), sub(8.0)]);

    // on a 4x4 grid the valid range is [-2, 2): index (3, 3) is rejected
    let (t, cam) = unit_cam((5.0, 5.0), (4, 4));
    assert!(cam.index_to_tile_pos(t, Index2 { x: 3, y: 3 }).is_none());
    let (t, cam) = make_pixel_cam((16.0, 16.0), (3, 3));
    assert!(cam.index_to_tile_pos(t, Index2 { x: 3, y: 3 }).is_none());
}

#[test]
fn index_to_tile_center_checked() {
    let (t, cam) = make_pixel_cam((16.0, 16.0), (3, 3));
    // tile (1, 0): centers local (1.0, 0.0) tiles -> (8, 0) world, from (16, 16)
    let p = cam.index_to_tile_center(t, Index2 { x: 1, y: 0 }).unwrap();
    assert_eq!([p.x, p.y], [sub(24.0), sub(16.0)]);
    assert!(cam.index_to_tile_center(t, Index2 { x: 2, y: 0 }).is_none());
}

#[test]
fn world_to_tile_snaps() {
    let (t, cam) = unit_cam((0.0, 0.0), (3, 3));
    // the corner of the tile containing (0.7, -0.2) is (-0.5, -0.5) + steps
    let p = cam.world_to_tile(t, fx(0.7, -0.2));
    assert_eq!([p.x, p.y], [sub(0.5), sub(-0.5)]);

    let (t, cam) = make_pixel_cam((16.0, 16.0), (4, 4));
    let p = cam.world_to_tile(t, fx(12.0, 12.0));
    assert_eq!([p.x, p.y], [sub(8.0), sub(8.0)]);
}

#[test]
fn world_local_round() {
    let (t, cam) = unit_cam((3.0, -2.0), (4, 4));
    let local = cam.world_to_local(t, fx(4.5, 4.5));
    assert_eq!([local.x, local.y], [sub(1.5), sub(6.5)]);
    let back = cam.local_to_world(t, local);
    assert_eq!([back.x, back.y], [sub(4.5), sub(4.5)]);
    // whole-unit and raw-subunit constructors agree with the helper
    assert_eq!(Fixed2::from_units(4, -2), fx(4.0, -2.0));
    assert_eq!(Fixed2::from_subunits(4500, 4500), fx(4.5, 4.5));
    assert_eq!(Index2::new(3, -7), Index2 { x: 3, y: -7 });
}

#[test]
fn target_resolution() {
    let cam = TiledCamera::unit_cam(sz(80, 45), sz(8, 8)).unwrap();
    let r = cam.target_resolution();
    assert_eq!((r.x, r.y), (640, 360));
}

#[test]
fn zero_config_rejected() {
    assert!(TiledCamera::unit_cam(sz(0, 5), sz(8, 8)).is_none());
    assert!(TiledCamera::unit_cam(sz(5, 0), sz(8, 8)).is_none());
    assert!(TiledCamera::pixel_cam(sz(5, 5), sz(0, 8)).is_none());
    assert!(TiledCamera::pixel_cam(sz(5, 5), sz(8, 0)).is_none());
    assert!(TiledCamera::pixel_cam(sz(5, 5), sz(8, 8)).is_some());
}

#[test]
fn default_camera() {
    let cam = TiledCamera::default();
    assert_eq!((cam.tile_count().x, cam.tile_count().y), (80, 35));
    assert_eq!((cam.pixels_per_tile().x, cam.pixels_per_tile().y), (8, 8));
    assert_eq!(cam.world_space(), WorldSpace::Units);
    assert!(cam.centered());
    assert_eq!(cam.zoom(), 1);
}

#[test]
fn set_world_space() {
    let mut cam = TiledCamera::unit_cam(sz(5, 5), sz(8, 8)).unwrap();
    assert_eq!(cam.world_space(), WorldSpace::Units);
    cam.set_world_space(WorldSpace::Pixels);
    assert_eq!(cam.world_space(), WorldSpace::Pixels);
}

#[test]
fn unit_size_by_space() {
    let cam = TiledCamera::unit_cam(sz(5, 5), sz(8, 8)).unwrap();
    let s = cam.unit_size().unwrap();
    assert_eq!((s.x, s.y), (sub(1.0), sub(1.0)));
    let cam = TiledCamera::pixel_cam(sz(5, 5), sz(8, 8)).unwrap();
    assert!(cam.unit_size().is_none());
}

#[test]
fn setters_reject_degenerate() {
    let mut cam = TiledCamera::unit_cam(sz(5, 5), sz(8, 8)).unwrap();
    assert!(!cam.set_tile_count(sz(0, 5)));
    assert_eq!((cam.tile_count().x, cam.tile_count().y), (5, 5));
    assert!(cam.set_tile_count(sz(7, 9)));
    assert_eq!((cam.tile_count().x, cam.tile_count().y), (7, 9));
    assert!(!cam.set_pixels_per_tile(sz(8, 0)));
    assert!(cam.set_pixels_per_tile(sz(16, 16)));
    assert_eq!((cam.pixels_per_tile().x, cam.pixels_per_tile().y), (16, 16));
    // the target resolution must stay within u32 per axis
    assert!(!cam.set_tile_count(sz(u32::MAX, 1)));
}

#[test]
fn set_centered_rederives_offset() {
    let mut cam = TiledCamera::unit_cam(sz(3, 3), sz(8, 8)).unwrap();
    let t = fx(0.0, 0.0);
    // centered odd grid: corner of (0,0) at (-0.5,-0.5); index 2 out of range
    let p = cam.index_to_tile_pos(t, Index2 { x: 0, y: 0 }).unwrap();
    assert_eq!([p.x, p.y], [sub(-0.5), sub(-0.5)]);
    assert!(cam.index_to_tile_pos(t, Index2 { x: 2, y: 2 }).is_none());
    cam.set_centered(false);
    // uncentered: corner of (0,0) at the origin; index -1 out of range
    let p = cam.index_to_tile_pos(t, Index2 { x: 0, y: 0 }).unwrap();
    assert_eq!([p.x, p.y], [sub(0.0), sub(0.0)]);
    assert!(cam.index_to_tile_pos(t, Index2 { x: -1, y: 0 }).is_none());
    assert!(cam.index_to_tile_pos(t, Index2 { x: 2, y: 2 }).is_some());
}

#[test]
fn camera_tile_iterators() {
    let (t, cam) = unit_cam((10.0, 10.0), (2, 2));
    let mut it = cam.tile_pos_iter(t);
    let mut corners: Vec<Fixed2> = Vec::new();
    while let Some(p) = it.next() {
        corners.push(p);
    }
    assert_eq!(corners.len(), 4);
    assert!(corners.contains(&fx(9.0, 9.0)));
    assert!(corners.contains(&fx(10.0, 9.0)));
    assert!(corners.contains(&fx(9.0, 10.0)));
    assert!(corners.contains(&fx(10.0, 10.0)));

    let mut it = cam.tile_center_iter(t);
    let mut centers: Vec<Fixed2> = Vec::new();
    while let Some(p) = it.next() {
        centers.push(p);
    }
    assert_eq!(centers.len(), 4);
    assert!(centers.contains(&fx(9.5, 9.5)));
    assert!(centers.contains(&fx(10.5, 9.5)));
    assert!(centers.contains(&fx(9.5, 10.5)));
    assert!(centers.contains(&fx(10.5, 10.5)));
}

#[test]
fn scaled_iterators() {
    // pixel space: one 2x2 tile spans 8 world units
    let (t, cam) = make_pixel_cam((0.0, 0.0), (2, 2));
    let mut it = cam.tile_pos_iter(t);
    let mut corners: Vec<Fixed2> = Vec::new();
    while let Some(p) = it.next() {
        corners.push(p);
    }
    assert_eq!(corners.len(), 4);
    assert!(corners.contains(&fx(-8.0, -8.0)));
    assert!(corners.contains(&fx(0.0, -8.0)));
    assert!(corners.contains(&fx(-8.0, 0.0)));
    assert!(corners.contains(&fx(0.0, 0.0)));
    let mut it = cam.tile_center_iter(t);
    let mut centers: Vec<Fixed2> = Vec::new();
    while let Some(p) = it.next() {
        centers.push(p);
    }
    assert!(centers.contains(&fx(4.0, 4.0)));
    assert!(centers.contains(&fx(-4.0, -4.0)));
}

#[test]
fn update_viewport_fits_window() {
    // window (100,100), target 6x6 tiles at 10x10 pixels = (60,60): zoom 1
    let mut cam = TiledCamera::unit_cam(sz(6, 6), sz(10, 10)).unwrap();
    let info = cam.update_viewport(sz(100, 100));
    assert_eq!(info.zoom, 1);
    assert_eq!((info.viewport_size.x, info.viewport_size.y), (60, 60));
    assert_eq!((info.viewport_position.x, info.viewport_position.y), (20, 20));
    assert_eq!(info.ortho_height, 6);
    assert_eq!(cam.zoom(), 1);
}

#[test]
fn update_viewport_exact_fit() {
    // window (160,160), target (80,80): zoom 2, viewport fills the window
    let mut cam = TiledCamera::unit_cam(sz(10, 10), sz(8, 8)).unwrap();
    let info = cam.update_viewport(sz(160, 160));
    assert_eq!(info.zoom, 2);
    assert_eq!((info.viewport_size.x, info.viewport_size.y), (160, 160));
    assert_eq!((info.viewport_position.x, info.viewport_position.y), (0, 0));
}

#[test]
fn update_viewport_small_window_crops() {
    // a window below the target resolution keeps zoom 1 and anchors the
    // viewport at the origin; the art is cropped, not shrunk
    let mut cam = TiledCamera::unit_cam(sz(6, 6), sz(10, 10)).unwrap();
    let info = cam.update_viewport(sz(50, 50));
    assert_eq!(info.zoom, 1);
    assert_eq!((info.viewport_size.x, info.viewport_size.y), (60, 60));
    assert_eq!((info.viewport_position.x, info.viewport_position.y), (0, 0));
}

#[test]
fn update_viewport_uneven_window() {
    // the smaller axis decides the zoom, and the slack is floored
    let mut cam = TiledCamera::unit_cam(sz(10, 5), sz(8, 8)).unwrap();
    // target (80, 40); window (321, 101): floors 4 and 2 -> zoom 2
    let info = cam.update_viewport(sz(321, 101));
    assert_eq!(info.zoom, 2);
    assert_eq!((info.viewport_size.x, info.viewport_size.y), (160, 80));
    assert_eq!((info.viewport_position.x, info.viewport_position.y), (80, 10));
}

#[test]
fn ortho_height_by_space() {
    let mut cam = TiledCamera::unit_cam(sz(10, 7), sz(8, 8)).unwrap();
    let info = cam.update_viewport(sz(200, 200));
    assert_eq!(info.ortho_height, 7);
    let mut cam = TiledCamera::pixel_cam(sz(10, 7), sz(8, 8)).unwrap();
    let info = cam.update_viewport(sz(200, 200));
    assert_eq!(info.ortho_height, 56);
}

#[test]
fn screen_to_world_center_and_corner() {
    let mut cam = TiledCamera::unit_cam(sz(10, 10), sz(8, 8)).unwrap();
    cam.update_viewport(sz(160, 160));
    let t = fx(2.0, 3.0);
    // the viewport center unprojects to the camera position
    let w = cam.screen_to_world(fx(80.0, 80.0), t).unwrap();
    assert_eq!([w.x, w.y], [sub(2.0), sub(3.0)]);
    // the viewport corner sits half the tile count from the camera:
    // 16 pixels per world unit at zoom 2
    let w = cam.screen_to_world(fx(0.0, 0.0), t).unwrap();
    assert_eq!([w.x, w.y], [sub(-3.0), sub(-2.0)]);
}

#[test]
fn screen_to_world_rejects_off_viewport() {
    let mut cam = TiledCamera::unit_cam(sz(6, 6), sz(10, 10)).unwrap();
    cam.update_viewport(sz(100, 100));
    let t = fx(0.0, 0.0);
    // viewport spans pixels [20, 80] on both axes
    assert!(cam.screen_to_world(fx(19.0, 50.0), t).is_none());
    assert!(cam.screen_to_world(fx(50.0, 81.0), t).is_none());
    assert!(cam.screen_to_world(fx(20.0, 80.0), t).is_some());
    assert!(cam.screen_to_world(fx(50.0, 50.0), t).is_some());
}

#[test]
fn world_to_screen_round_trip() {
    let mut cam = TiledCamera::unit_cam(sz(10, 10), sz(8, 8)).unwrap();
    cam.update_viewport(sz(160, 160));
    let t = fx(2.0, 3.0);
    // the camera position projects to the viewport center
    let s = cam.world_to_screen(t, t);
    assert_eq!([s.x, s.y], [sub(80.0), sub(80.0)]);
    // one world unit right is 16 pixels right at zoom 2
    let s = cam.world_to_screen(fx(3.0, 3.0), t);
    assert_eq!([s.x, s.y], [sub(96.0), sub(80.0)]);
    // a fractional pixel offset rounds to the nearest whole pixel:
    // 0.4 world units = 6.4 pixels rounds down
    let s = cam.world_to_screen(fx(2.4, 3.0), t);
    assert_eq!([s.x, s.y], [sub(86.0), sub(80.0)]);
}

#[test]
fn world_to_screen_pixel_space() {
    let mut cam = TiledCamera::pixel_cam(sz(10, 10), sz(8, 8)).unwrap();
    cam.update_viewport(sz(160, 160));
    let t = fx(0.0, 0.0);
    // in pixel space one world unit is one texel: 2 screen pixels at zoom 2
    let s = cam.world_to_screen(fx(5.0, -5.0), t);
    assert_eq!([s.x, s.y], [sub(90.0), sub(70.0)]);
    let w = cam.screen_to_world(fx(90.0, 70.0), t).unwrap();
    assert_eq!([w.x, w.y], [sub(5.0), sub(-5.0)]);
}
