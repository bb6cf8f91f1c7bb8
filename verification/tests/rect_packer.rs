use pathfinder_font::geometry::{Point2D, Size2D};
use pathfinder_font::rect_packer::RectPacker;

struct Lcg(u64);

impl Lcg {
    fn next(&mut self, bound: u32) -> u32 {
        self.0 = self.0.wrapping_mul(6364136223846793005).wrapping_add(1442695040888963407);
        ((self.0 >> 33) % bound as u64) as u32
    }
}

fn place(seed: u64, count: usize) -> (RectPacker, Vec<(Point2D, Size2D)>) {
    let mut rng = Lcg(seed);
    let sizes: Vec<Size2D> = (0..count).map(|_| Size2D::new(rng.next(30), rng.next(20))).collect();
    let width = sizes.iter().map(|s| s.width + 2).max().unwrap_or(0) + rng.next(40);
    let shelf = sizes.iter().map(|s| s.height + 2).max().unwrap_or(0);
    let mut packer = RectPacker::new(width, shelf);
    let placed = sizes.iter().map(|s| (packer.pack(s).unwrap(), *s)).collect();
    (packer, placed)
}

fn overlaps(a: &(Point2D, Size2D), b: &(Point2D, Size2D)) -> bool {
    a.0.x < b.0.x + b.1.width && b.0.x < a.0.x + a.1.width && a.0.y < b.0.y + b.1.height
        && b.0.y < a.0.y + a.1.height
}

#[test]
fn objects_dont_overlap() {
    for seed in 0..40 {
        let (_, rects) = place(seed, 25);
        for (i, a) in rects.iter().enumerate() {
            for b in &rects[(i + 1)..] {
                assert!(!overlaps(a, b));
            }
        }
    }
}

#[test]
fn objects_dont_exceed_available_width() {
    for seed in 0..40 {
        let (packer, rects) = place(seed, 25);
        assert!(rects.iter().all(|r| r.0.x + r.1.width <= packer.available_width()));
    }
}

#[test]
fn objects_dont_cross_shelves() {
    for seed in 0..40 {
        let (packer, rects) = place(seed, 25);
        let h = packer.shelf_height();
        assert!(rects.iter().all(|r| r.1.height == 0 || r.0.y / h == (r.0.y + r.1.height - 1) / h));
    }
}

#[test]
fn packing_fills_shelves_left_to_right() {
    let mut packer = RectPacker::new(10, 6);
    assert_eq!(packer.pack(&Size2D::new(2, 4)), Ok(Point2D::new(1, 1)));
    assert_eq!(packer.pack(&Size2D::new(2, 4)), Ok(Point2D::new(5, 1)));
    assert_eq!(packer.shelf_columns(), 10);
    assert_eq!(packer.pack(&Size2D::new(5, 1)), Ok(Point2D::new(1, 7)));
    assert_eq!(packer.pack(&Size2D::new(1, 5)), Err(()));
    assert_eq!(packer.shelf_height(), 6);
}

#[test]
fn too_wide_or_too_tall_requests_fail_and_change_nothing() {
    let mut p = RectPacker::new(20, 10);
    assert_eq!(p.pack(&Size2D::new(3, 3)), Ok(Point2D::new(1, 1)));
    let columns = p.shelf_columns();
    assert_eq!(p.pack(&Size2D::new(19, 3)), Err(()));
    assert_eq!(p.pack(&Size2D::new(3, 9)), Err(()));
    assert_eq!((p.available_width(), p.shelf_height(), p.shelf_count(), p.shelf_columns()), (20, 10, 1, columns));
    // The next request is placed as if the failed ones had not been made.
    assert_eq!(p.pack(&Size2D::new(3, 3)), Ok(Point2D::new(1, 6)));
    // The widest request that fits, with its border, takes a whole shelf's width.
    assert_eq!(p.pack(&Size2D::new(18, 3)), Ok(Point2D::new(1, 11)));
}

#[test]
fn packing_stops_where_u32_coordinates_end() {
    // Requests too large for a border around them fail like any other oversized request.
    let mut p = RectPacker::new(u32::MAX, u32::MAX);
    assert_eq!(p.pack(&Size2D::new(u32::MAX, 1)), Err(()));
    assert_eq!(p.pack(&Size2D::new(1, u32::MAX)), Err(()));
    // A shelf more than half of the coordinate space tall leaves no room for a second one.
    let tall = u32::MAX / 2 + 1;
    let mut p = RectPacker::new(10, tall);
    assert_eq!(p.pack(&Size2D::new(8, 1)), Ok(Point2D::new(1, 1)));
    assert_eq!(p.pack(&Size2D::new(8, tall - 2)), Err(()));
    assert_eq!(p.shelf_count(), 1);
    // The space left beside and below the first object is still handed out.
    assert_eq!(p.pack(&Size2D::new(8, 1)), Ok(Point2D::new(1, 4)));
    // An atlas whose area exceeds `u32` still compares its free rectangles by area.
    let mut p = RectPacker::new(70_000, 70_000);
    assert_eq!(p.pack(&Size2D::new(10, 10)), Ok(Point2D::new(1, 1)));
    assert_eq!(p.pack(&Size2D::new(10, 10)), Ok(Point2D::new(1, 13)));
    assert_eq!(p.pack(&Size2D::new(60_000, 10)), Ok(Point2D::new(13, 1)));
}
