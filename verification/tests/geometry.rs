use blobs::geom::{draw_radius, isqrt};

#[test]
fn isqrt_small_values() {
    assert_eq!(isqrt(0), 0);
    assert_eq!(isqrt(1), 1);
    assert_eq!(isqrt(3), 1);
    assert_eq!(isqrt(4), 2);
    assert_eq!(isqrt(15), 3);
    assert_eq!(isqrt(16), 4);
    assert_eq!(isqrt(99), 9);
    assert_eq!(isqrt(100), 10);
}

#[test]
fn isqrt_large_values() {
    assert_eq!(isqrt(u64::MAX), 4_294_967_295);
    assert_eq!(isqrt(10_000_000_000), 100_000);
}

#[test]
fn radius_floor_at_zero_distance() {
    assert_eq!(draw_radius(0, 0), 3000);
}

#[test]
fn radius_floor_at_short_distance() {
    // Ten pixels away: a twentieth is half a pixel, below the floor.
    assert_eq!(draw_radius(10_000, 0), 3000);
}

#[test]
fn radius_grows_with_distance() {
    // A hundred pixels away: a twentieth is five pixels.
    assert_eq!(draw_radius(100_000, 0), 5000);
    assert_eq!(draw_radius(0, -100_000), 5000);
    // 300 and 400 pixels along the axes: distance 500 pixels, radius 25.
    assert_eq!(draw_radius(300_000, 400_000), 25_000);
}

#[test]
fn radius_never_below_floor() {
    let mut d: i64 = 0;
    while d <= 2_000_000_000 {
        assert!(draw_radius(d, 0) >= 3000);
        assert!(draw_radius(-d, d) >= 3000);
        d = d * 10 + 7;
    }
}
