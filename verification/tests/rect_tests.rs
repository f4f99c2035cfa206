use tiled_camera::Fixed2;
use tiled_camera::Index2;
use tiled_camera::Rect;
use tiled_camera::Size2;
use tiled_camera::rect::RectIterator;

fn sub(v: f64) -> i64 {
    (v * 1000.0).round() as i64
}

fn fx(x: f64, y: f64) -> Fixed2 {
    Fixed2 { x: sub(x), y: sub(y) }
}

fn gp(x: i64, y: i64) -> Index2 {
    Index2 { x, y }
}

fn gs(x: u32, y: u32) -> Size2 {
    Size2 { x, y }
}

#[test]
fn init() {
    let rect = Rect::from_grid_position_size(gp(5, 5), gs(5, 5));
    assert_eq!((5, 5), {
        let p = rect.grid_position();
        (p.x, p.y)
    });
    assert_eq!((5, 5), {
        let s = rect.grid_size();
        (s.x, s.y)
    });
}

#[test]
fn iterator() {
    let size = 10i64;
    let rect = Rect::from_grid_position_size(gp(0, 0), gs(size as u32, size as u32));

    let mut iter = rect.iter();
    let mut points: Vec<(i64, i64)> = Vec::new();
    while let Some(p) = iter.next() {
        points.push((p.x, p.y));
    }

    for x in 0..size {
        for y in 0..size {
            assert!(points.contains(&(x, y)));
        }
    }

    assert_eq!(size * size, points.len() as i64);
}

#[test]
fn overlap() {
    let r1 = Rect::from_grid_extents(gp(0, 0), gp(10, 10));
    let r2 = Rect::from_grid_extents(gp(5, 5), gp(10, 10));
    let r3 = Rect::from_grid_extents(gp(100, 100), gp(110, 110));

    assert!(r1.grid_overlaps(&r2));
    assert!(!r1.grid_overlaps(&r3));
    assert!(r1.grid_overlaps(&r1));

    let r1 = Rect::from_grid_extents(gp(0, 0), gp(5, 5));
    let r2 = Rect::from_grid_extents(gp(6, 6), gp(10, 10));

    assert!(!r1.overlaps(&r2));

    let r1 = Rect::from_grid_position_size(gp(24, 12), gs(6, 8));
    let r2 = Rect::from_grid_position_size(gp(6, 31), gs(9, 7));

    assert!(!r1.grid_overlaps(&r2));
}

#[test]
fn touching_edges_overlap() {
    // the overlap test is over closed intervals, so touching counts
    let r1 = Rect::from_grid_extents(gp(0, 0), gp(5, 5));
    let r2 = Rect::from_grid_extents(gp(5, 5), gp(9, 9));
    assert!(r1.overlaps(&r2));
    assert!(r1.grid_overlaps(&r2));
}

#[test]
fn zero_area_iteration_is_empty() {
    let rect = Rect::from_grid_position_size(gp(3, 3), gs(0, 4));
    let mut iter = rect.iter();
    assert!(iter.next().is_none());
    let rect = Rect::from_position_size(fx(1.0, 1.0), fx(0.0, 0.0));
    let mut iter = rect.iter();
    assert!(iter.next().is_none());
}

#[test]
fn accessors() {
    let r = Rect::from_position_size(fx(-1.5, 2.0), fx(4.0, 3.5));
    assert_eq!(r.width(), sub(4.0));
    assert_eq!(r.height(), sub(3.5));
    let s = r.size();
    assert_eq!((s.x, s.y), (sub(4.0), sub(3.5)));
    let p = r.position();
    assert_eq!((p.x, p.y), (sub(-1.5), sub(2.0)));
    let c = r.center();
    assert_eq!((c.x, c.y), (sub(0.5), sub(3.75)));
    let min = r.grid_min();
    assert_eq!((min.x, min.y), (-2, 2));
    let max = r.grid_max();
    assert_eq!((max.x, max.y), (2, 5));
    assert_eq!(r.grid_width(), 4);
    assert_eq!(r.grid_height(), 3);
    // a negative minimum saturates the unsigned grid position at zero
    let p = r.grid_position();
    assert_eq!((p.x, p.y), (0, 2));
}

#[test]
fn from_extents_and_center() {
    let r = Rect::from_extents(fx(-2.0, -2.0), fx(2.0, 3.0));
    let c = r.center();
    assert_eq!((c.x, c.y), (sub(0.0), sub(0.5)));

    let r = Rect::from_center_size(fx(1.0, 1.0), fx(4.0, 4.0));
    assert_eq!((r.min.x, r.min.y), (sub(-1.0), sub(-1.0)));
    assert_eq!((r.max.x, r.max.y), (sub(3.0), sub(3.0)));

    let r = Rect::from_grid_center_size(gp(2, 2), gs(4, 2));
    assert_eq!((r.min.x, r.min.y), (sub(0.0), sub(1.0)));
    assert_eq!((r.max.x, r.max.y), (sub(4.0), sub(3.0)));
    let c = r.grid_center();
    assert_eq!((c.x, c.y), (2, 2));
}

#[test]
fn mutators() {
    let mut r = Rect::from_grid_position_size(gp(0, 0), gs(10, 10));
    r.set_position(fx(5.0, -5.0));
    assert_eq!((r.min.x, r.min.y), (sub(5.0), sub(-5.0)));
    assert_eq!((r.max.x, r.max.y), (sub(15.0), sub(5.0)));
    r.set_grid_position(gp(-3, 3));
    assert_eq!((r.min.x, r.min.y), (sub(-3.0), sub(3.0)));
    r.set_size(fx(2.0, 4.0));
    assert_eq!((r.max.x, r.max.y), (sub(-1.0), sub(7.0)));
    r.set_center(fx(0.0, 0.0));
    assert_eq!((r.min.x, r.min.y), (sub(-1.0), sub(-2.0)));
    assert_eq!((r.max.x, r.max.y), (sub(1.0), sub(2.0)));
}

#[test]
fn continuous_iterator() {
    let rect = Rect::from_extents(fx(-1.5, -1.5), fx(1.5, 0.5));
    let mut iter = RectIterator::from_rect(&rect);
    let mut points: Vec<Fixed2> = Vec::new();
    while let Some(p) = iter.next() {
        points.push(p);
    }
    // grid size is (3, 2): six positions stepping from the minimum extent
    assert_eq!(points.len(), 6);
    assert!(points.contains(&fx(-1.5, -1.5)));
    assert!(points.contains(&fx(-0.5, -1.5)));
    assert!(points.contains(&fx(0.5, -1.5)));
    assert!(points.contains(&fx(-1.5, -0.5)));
    assert!(points.contains(&fx(0.5, -0.5)));
}
