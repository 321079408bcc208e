use starfield::controller::{Starfield, STAR_COUNT};
use starfield::star::Star;

const SCALE: i64 = 65536;
const SCALE_F: f64 = 65536.0;

/// Whole pixels in fixed-point units.
fn px(v: i64) -> i64 {
    v * SCALE
}

/// A fixed pseudo-random sequence of uniform draws.
fn fixed_draws(n: usize, mut seed: u32) -> Vec<u32> {
    let mut out = Vec::with_capacity(n);
    for _ in 0..n {
        seed = seed.wrapping_mul(1664525).wrapping_add(1013904223);
        out.push(seed);
    }
    out
}

#[test]
fn thousand_stars_in_bounds() {
    let draws = fixed_draws(3 * STAR_COUNT, 42);
    let field = Starfield::new(800, 600, &draws);
    assert_eq!(field.stars.len(), 1000);
    for s in &field.stars {
        let x = s.x as f64 / SCALE_F;
        let y = s.y as f64 / SCALE_F;
        let size = s.size as f64 / SCALE_F;
        assert!(0.0 <= x && x < 800.0);
        assert!(0.0 <= y && y < 600.0);
        assert!(1.0 <= size && size < 4.0);
    }
}

#[test]
fn degenerate_dimensions_pin_stars_at_origin() {
    let draws = fixed_draws(3 * STAR_COUNT, 7);
    let field = Starfield::new(0, 0, &draws);
    assert_eq!(field.stars.len(), 1000);
    for s in &field.stars {
        assert_eq!(s.x, 0);
        assert_eq!(s.y, 0);
    }
    let wide = Starfield::new(800, 0, &draws);
    for s in &wide.stars {
        assert!(s.x >= 0 && (s.x as f64) < 800.0 * SCALE_F);
        assert_eq!(s.y, 0);
    }
}

#[test]
fn coincident_pointer_pushes_five_pixels_along_x() {
    let mut field = Starfield {
        stars: vec![Star { x: px(100), y: px(100), size: px(2) }],
        width: 800,
        height: 600,
    };
    field.pointer_move(px(100), px(100));
    let s = field.stars[0];
    let dx = s.x as f64 / SCALE_F - 100.0;
    let dy = s.y as f64 / SCALE_F - 100.0;
    assert_eq!(dx, 5.0);
    assert_eq!(dy, 0.0);
    assert!(((dx * dx + dy * dy).sqrt() - 5.0).abs() < 1e-9);
}

#[test]
fn distant_pointer_leaves_star_unchanged() {
    let before = Star { x: 0, y: 0, size: px(1) };
    let mut field = Starfield { stars: vec![before], width: 800, height: 600 };
    field.pointer_move(px(100), px(100));
    assert_eq!(field.stars[0], before);
}

#[test]
fn repulsion_moves_star_along_pointer_axis() {
    let mut field = Starfield {
        stars: vec![Star { x: px(10), y: 0, size: px(1) }],
        width: 800,
        height: 600,
    };
    field.pointer_move(0, 0);
    let s = field.stars[0];
    assert_eq!(s.x, px(5));
    assert_eq!(s.y, 0);
}

#[test]
fn displacements_accumulate_over_events() {
    let mut field = Starfield {
        stars: vec![Star { x: px(100), y: px(100), size: px(3) }],
        width: 800,
        height: 600,
    };
    field.pointer_move(px(100), px(100));
    assert_eq!(field.stars[0].x, px(105));
    assert_eq!(field.stars[0].y, px(100));
    field.pointer_move(px(110), px(100));
    assert_eq!(field.stars[0].x, px(110));
    assert_eq!(field.stars[0].y, px(100));
    let total_dx = field.stars[0].x - px(100);
    assert_eq!(total_dx, px(5) + px(5));
}

#[test]
fn no_event_alters_star_sizes() {
    let draws = fixed_draws(3 * STAR_COUNT, 99);
    let mut field = Starfield::new(640, 480, &draws);
    let sizes: Vec<i64> = field.stars.iter().map(|s| s.size).collect();
    field.pointer_move(px(320), px(240));
    field.resize(1920, 1080);
    field.pointer_move(px(15), px(700));
    for (s, size) in field.stars.iter().zip(sizes.iter()) {
        assert_eq!(s.size, *size);
    }
}
