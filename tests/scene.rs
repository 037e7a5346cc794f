use raytracer::nearest::{nearest_hit, NearestHit};
use raytracer::raster::Raster;
use raytracer::roots::{pick_root, Root};

#[test]
fn no_primitives_no_hit() {
    assert_eq!(nearest_hit(u64::MAX, &Vec::new()), None);
}

#[test]
fn nearest_of_several() {
    let keys = vec![Some(50), None, Some(30), Some(70)];
    assert_eq!(nearest_hit(u64::MAX, &keys), Some(2));
}

#[test]
fn equal_keys_first_wins() {
    let keys = vec![Some(9), Some(3), Some(3), Some(4)];
    assert_eq!(nearest_hit(100, &keys), Some(1));
}

#[test]
fn answers_at_or_above_bound_ignored() {
    let keys = vec![Some(100), Some(101), None];
    assert_eq!(nearest_hit(100, &keys), None);
    let keys = vec![Some(100), Some(99)];
    assert_eq!(nearest_hit(100, &keys), Some(1));
}

#[test]
fn scan_step_by_step() {
    let mut s = NearestHit::new(1000);
    s.offer(0, Some(400));
    assert_eq!(s, NearestHit { bound: 400, index: Some(0) });
    s.offer(1, None);
    s.offer(2, Some(500));
    assert_eq!(s, NearestHit { bound: 400, index: Some(0) });
    s.offer(3, Some(200));
    assert_eq!(s, NearestHit { bound: 200, index: Some(3) });
}

#[test]
fn float_keys_keep_order() {
    // Positive floats order as their bit patterns do.
    let ts: [f64; 4] = [2.5, 0.75, 1.0e3, 0.75];
    let keys: Vec<Option<u64>> = ts.iter().map(|t| Some(t.to_bits())).collect();
    assert_eq!(nearest_hit(f64::INFINITY.to_bits(), &keys), Some(1));
}

#[test]
fn near_root_preferred() {
    assert_eq!(pick_root(true, true), Some(Root::Near));
    assert_eq!(pick_root(true, false), Some(Root::Near));
    assert_eq!(pick_root(false, true), Some(Root::Far));
    assert_eq!(pick_root(false, false), None);
}

#[test]
fn raster_dimensions() {
    let r = Raster::new(1200, 675);
    assert_eq!((r.width, r.height), (1200, 675));
    assert_eq!(r.pixel_count(), 810000);
    let r = Raster::new(100, 0);
    assert_eq!((r.width, r.height), (100, 1));
    let r = Raster::new(-5, -3);
    assert_eq!((r.width, r.height), (0, 1));
    assert_eq!(r.pixel_count(), 0);
}

#[test]
fn raster_row_major() {
    let r = Raster::new(4, 3);
    assert_eq!(r.index_of(0, 0), 0);
    assert_eq!(r.index_of(3, 0), 3);
    assert_eq!(r.index_of(0, 1), 4);
    assert_eq!(r.index_of(2, 2), 10);
    assert_eq!(r.pixel_at(10), (2, 2));
    assert_eq!(r.pixel_at(4), (0, 1));
    for k in 0..r.pixel_count() {
        let (i, j) = r.pixel_at(k);
        assert_eq!(r.index_of(i, j), k);
    }
}
