use raytracer::nearest::nearest_hit;
use raytracer::path::{Event, Path, PathEnd};
use raytracer::scatter::{dielectric_bounce, lambertian_bounce, metal_bounce, Bounce};

#[test]
fn lambertian_always_scatters() {
    assert_eq!(lambertian_bounce(false), Bounce::Diffuse);
    assert_eq!(lambertian_bounce(true), Bounce::AlongNormal);
    assert!(lambertian_bounce(false).is_scattered());
    assert!(lambertian_bounce(true).is_scattered());
}

#[test]
fn metal_absorbs_into_surface() {
    assert_eq!(metal_bounce(true), Bounce::Reflected);
    assert_eq!(metal_bounce(false), Bounce::Absorbed);
    assert!(!metal_bounce(false).is_scattered());
}

#[test]
fn dielectric_choices() {
    assert_eq!(dielectric_bounce(true, false), Bounce::Reflected);
    assert_eq!(dielectric_bounce(true, true), Bounce::Reflected);
    assert_eq!(dielectric_bounce(false, true), Bounce::Reflected);
    assert_eq!(dielectric_bounce(false, false), Bounce::Refracted);
}

#[test]
fn zero_depth_is_black() {
    for d in [0, -1, i32::MIN] {
        let p = Path::start(d);
        assert!(p.is_done());
        assert_eq!(p.end, Some(PathEnd::Black));
        assert_eq!(p.bounces, 0);
    }
}

#[test]
fn miss_is_sky() {
    let mut p = Path::start(1);
    assert!(!p.is_done());
    p.record(Event::Miss);
    assert_eq!(p.end, Some(PathEnd::Sky));
    assert_eq!(p.bounces, 0);
}

#[test]
fn absorbed_is_black() {
    let mut p = Path::start(5);
    p.record(Event::Hit(Bounce::Reflected));
    p.record(Event::Hit(Bounce::Absorbed));
    assert_eq!(p.end, Some(PathEnd::Black));
    assert_eq!(p.bounces, 1);
}

#[test]
fn depth_runs_out() {
    let mut p = Path::start(3);
    for _ in 0..3 {
        assert!(!p.is_done());
        p.record(Event::Hit(Bounce::Diffuse));
    }
    assert_eq!(p.end, Some(PathEnd::Black));
    assert_eq!(p.bounces, 3);
    assert_eq!(p.remaining, 0);
    // Events after the end change nothing.
    p.record(Event::Miss);
    assert_eq!(p.end, Some(PathEnd::Black));
}

#[test]
fn bounces_then_sky() {
    let mut p = Path::start(50);
    p.record(Event::Hit(Bounce::Refracted));
    p.record(Event::Hit(Bounce::AlongNormal));
    p.record(Event::Miss);
    assert_eq!(p.end, Some(PathEnd::Sky));
    assert_eq!(p.bounces, 2);
    assert_eq!(p.remaining, 48);
}

#[test]
fn empty_scene_gives_sky() {
    for depth in [1, 2, 50] {
        let mut p = Path::start(depth);
        let hit = nearest_hit(f64::INFINITY.to_bits(), &Vec::new());
        assert_eq!(hit, None);
        p.record(Event::Miss);
        assert_eq!(p.end, Some(PathEnd::Sky));
        assert_eq!(p.bounces, 0);
    }
}
