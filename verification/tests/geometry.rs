use tracking::geom::{Point, Region};

#[test]
fn click_region_is_sixty_square() {
    let r = Region::from_click(100, 100);
    assert_eq!((r.x, r.y, r.width, r.height), (70, 70, 60, 60));
}

#[test]
fn center_rounds_half_extents_down() {
    let r = Region::new(10, 10, 5, 7);
    let c = r.center();
    assert_eq!(c, Point::from_pixels(12, 13));
}

#[test]
fn pixel_coordinates_truncate_toward_zero() {
    let p = Point { x: 1_999, y: -1_999 };
    assert_eq!(p.pixel_x(), 1);
    assert_eq!(p.pixel_y(), -1);
    let q = Point::from_pixels(-5, -7);
    assert_eq!(q.pixel_x(), -5);
    assert_eq!(q.pixel_y(), -7);
}
