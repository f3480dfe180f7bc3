use arspaint::geometry::{
    is_near, isqrt, lerp_to_pixel, limit, trunc_by, FinePoint, Point, Rect, Region, COORD_LIMIT, FINE,
};
use arspaint::tools::base::{radius, smooth};
use arspaint::tools::scratch::{segment_step_count, MAX_RADIUS};

#[test]
fn region_union_is_the_hull() {
    let a = Region { x: 2, y: 3, width: 4, height: 1 };
    let b = Region { x: 5, y: 0, width: 2, height: 2 };
    assert_eq!(a.union(b), Region { x: 2, y: 0, width: 5, height: 4 });
    assert_eq!(b.union(a), Region { x: 2, y: 0, width: 5, height: 4 });
    assert_eq!(a.union(a), a);
}

#[test]
fn rect_of_a_region_and_containment() {
    let r = Rect::from_region(Region { x: 3, y: 4, width: 10, height: 2 });
    assert_eq!(r, Rect { min_x: 3, min_y: 4, max_x: 13, max_y: 6 });
    assert!(r.contains(Point::new(3, 4)));
    assert!(r.contains(Point::new(13, 6)));
    assert!(!r.contains(Point::new(14, 6)));
    assert!(!r.contains(Point::new(2, 5)));
    let inverted = Rect { min_x: 5, min_y: 5, max_x: 1, max_y: 1 };
    assert!(!inverted.contains(Point::new(3, 3)));
}

#[test]
fn coordinates_are_limited() {
    assert_eq!(limit(5), 5);
    assert_eq!(limit(-5), -5);
    assert_eq!(limit(COORD_LIMIT + 1), COORD_LIMIT);
    assert_eq!(limit(i64::MIN), -COORD_LIMIT);
    assert_eq!(limit(i64::MAX), COORD_LIMIT);
}

#[test]
fn nearness_is_strict() {
    let p = Point::new(100, 100);
    assert!(is_near(p, 100, 100, 12));
    assert!(is_near(p, 108, 108, 12));
    assert!(!is_near(p, 109, 108, 12));
    assert!(!is_near(p, 112, 100, 12));
    assert!(is_near(p, 111, 100, 12));
    assert!(!is_near(p, 100, 88, 12));
    assert!(!is_near(Point::new(i32::MIN, i32::MAX), COORD_LIMIT, -COORD_LIMIT, 12));
}

#[test]
fn integer_square_roots() {
    for (n, r) in [(0u128, 0u64), (1, 1), (2, 1), (3, 1), (4, 2), (99, 9), (100, 10), (101, 10)] {
        assert_eq!(isqrt(n), r);
    }
    assert_eq!(isqrt(u128::MAX), u64::MAX);
    assert_eq!(isqrt(1u128 << 100), 1u64 << 50);
    assert_eq!(isqrt((1u128 << 100) - 1), (1u64 << 50) - 1);
}

#[test]
fn truncating_division() {
    assert_eq!(trunc_by(7, 2), 3);
    assert_eq!(trunc_by(-7, 2), -3);
    assert_eq!(trunc_by(-1, 256), 0);
    assert_eq!(trunc_by(-256, 256), -1);
    assert_eq!(trunc_by(0, 5), 0);
}

#[test]
fn fine_points_and_their_pixels() {
    let f = FinePoint::from_point(Point::new(3, -2));
    assert_eq!(f, FinePoint { x: 3 * FINE, y: -2 * FINE });
    assert_eq!(f.to_pixel(), (3, -2));
    assert_eq!(FinePoint { x: 3 * 256 + 255, y: -2 * 256 - 255 }.to_pixel(), (3, -2));
    assert_eq!(FinePoint { x: -1, y: 255 }.to_pixel(), (0, 0));
    let far = FinePoint::from_point(Point::new(i32::MIN, i32::MAX));
    assert_eq!(far.to_pixel(), (i32::MIN as i64, i32::MAX as i64));
}

#[test]
fn interpolation_rounds_toward_zero() {
    assert_eq!(lerp_to_pixel(0, 2560, 5, 0), 0);
    assert_eq!(lerp_to_pixel(0, 2560, 5, 2), 4);
    assert_eq!(lerp_to_pixel(0, 2560, 5, 5), 10);
    assert_eq!(lerp_to_pixel(0, 768, 4, 1), 0);
    assert_eq!(lerp_to_pixel(0, 768, 4, 2), 1);
    assert_eq!(lerp_to_pixel(0, 768, 4, 3), 2);
    assert_eq!(lerp_to_pixel(-768, 0, 2, 1), -1);
    assert_eq!(lerp_to_pixel(2560, 0, 4, 1), 7);
}

#[test]
fn step_counts_of_segments() {
    let at = |x: i32, y: i32| FinePoint::from_point(Point::new(x, y));
    assert_eq!(segment_step_count(at(0, 0), at(3, 4), 100), 5);
    assert_eq!(segment_step_count(at(0, 0), at(3, 4), 200), 2);
    assert_eq!(segment_step_count(at(0, 0), at(3, 4), 500), 1);
    assert_eq!(segment_step_count(at(0, 0), at(3, 4), 501), 1);
    assert_eq!(segment_step_count(at(0, 0), at(1, 1), 100), 1);
    assert_eq!(segment_step_count(at(5, 5), at(5, 5), 100), 1);
    assert_eq!(segment_step_count(at(0, 0), at(0, 10), 100), 10);
    assert_eq!(segment_step_count(at(-3, 0), at(0, -4), 100), 5);
    // the longest segment there is
    let steps = segment_step_count(at(i32::MIN, i32::MIN), at(i32::MAX, i32::MAX), 100);
    assert_eq!(steps, 6_074_000_998);
}

#[test]
fn smoothing_weighs_the_last_position() {
    let last = FinePoint { x: 2560, y: 2560 };
    let raw = FinePoint { x: 5120, y: 2560 };
    assert_eq!(smooth(last, raw, 50), FinePoint { x: 3840, y: 2560 });
    assert_eq!(smooth(last, raw, 0), raw);
    assert_eq!(smooth(FinePoint { x: 0, y: 0 }, FinePoint { x: 25600, y: -25600 }, 95), FinePoint {
        x: 1280,
        y: -1280
    });
    // the weight is capped at 95 hundredths
    assert_eq!(smooth(FinePoint { x: 0, y: 0 }, FinePoint { x: 25600, y: 0 }, 400), FinePoint {
        x: 1280,
        y: 0
    });
    // rounding is toward zero on both sides
    assert_eq!(smooth(FinePoint { x: 1, y: -1 }, FinePoint { x: 0, y: 0 }, 50), FinePoint {
        x: 0,
        y: 0
    });
}

#[test]
fn radius_is_the_size_capped() {
    assert_eq!(radius(0), 0);
    assert_eq!(radius(5), 5);
    assert_eq!(radius(u32::MAX), MAX_RADIUS);
}
