use starfield::controller::{Starfield, STAR_COUNT};
use starfield::frame::{draw_stars, DrawCmd};
use starfield::geom::isqrt;
use starfield::star::Star;

const SCALE: i64 = 65536;
const STEP: i64 = 5 * SCALE;
const RADIUS_SQ: i128 = 2500 * (SCALE as i128) * (SCALE as i128);
const SCALE_F: f64 = 65536.0;

fn px(v: i64) -> i64 {
    v * SCALE
}

fn fixed_draws(n: usize, mut seed: u32) -> Vec<u32> {
    let mut out = Vec::with_capacity(n);
    for _ in 0..n {
        seed = seed.wrapping_mul(1664525).wrapping_add(1013904223);
        out.push(seed);
    }
    out
}

#[test]
fn isqrt_exact_values() {
    assert_eq!(isqrt(0), 0);
    assert_eq!(isqrt(1), 1);
    assert_eq!(isqrt(2), 1);
    assert_eq!(isqrt(3), 1);
    assert_eq!(isqrt(4), 2);
    assert_eq!(isqrt(99), 9);
    assert_eq!(isqrt(100), 10);
    assert_eq!(isqrt(429496729600), 655360);
    assert_eq!(isqrt(u64::MAX), 4294967295);
}

#[test]
fn static_frame_clears_then_draws_in_order() {
    let stars = vec![
        Star { x: px(1), y: px(2), size: px(3) },
        Star { x: px(-4), y: px(900), size: SCALE + 5 },
    ];
    let frame = draw_stars(&stars, 1024, 768);
    assert_eq!(frame.len(), 3);
    assert_eq!(frame[0], DrawCmd::Clear { width: 1024, height: 768 });
    assert_eq!(frame[1], DrawCmd::StarCircle { x: px(1), y: px(2), size: px(3) });
    assert_eq!(frame[2], DrawCmd::StarCircle { x: px(-4), y: px(900), size: SCALE + 5 });
}

#[test]
fn static_frame_uses_current_dimensions_not_generation_ones() {
    let draws = fixed_draws(3 * STAR_COUNT, 5);
    let field = Starfield::new(800, 600, &draws);
    let frame = draw_stars(&field.stars, 333, 777);
    assert_eq!(frame[0], DrawCmd::Clear { width: 333, height: 777 });
}

#[test]
fn empty_field_frame_is_a_single_clear() {
    let mut field = Starfield { stars: Vec::new(), width: 20, height: 10 };
    let frame = field.pointer_move(0, 0);
    assert_eq!(frame.len(), 1);
    assert_eq!(frame[0], DrawCmd::Clear { width: 20, height: 10 });
}

#[test]
fn resize_adopts_viewport_and_redraws_same_stars() {
    let draws = fixed_draws(3 * STAR_COUNT, 12);
    let mut field = Starfield::new(800, 600, &draws);
    let before = field.stars.clone();
    let frame = field.resize(1920, 1080);
    assert_eq!(field.width, 1920);
    assert_eq!(field.height, 1080);
    assert_eq!(field.stars, before);
    assert_eq!(frame.len(), 1001);
    assert_eq!(frame[0], DrawCmd::Clear { width: 1920, height: 1080 });
    for (i, s) in before.iter().enumerate() {
        assert_eq!(frame[i + 1], DrawCmd::StarCircle { x: s.x, y: s.y, size: s.size });
    }
}

#[test]
fn full_scenario_one_pointer_event() {
    let draws = fixed_draws(3 * STAR_COUNT, 2024);
    let mut field = Starfield::new(800, 600, &draws);
    let before = field.stars.clone();
    let (pointer_x, pointer_y) = (px(400), px(300));
    let frame = field.pointer_move(pointer_x, pointer_y);

    assert_eq!(field.stars.len(), 1000);
    let mut reacted = 0;
    for (i, old) in before.iter().enumerate() {
        let new = field.stars[i];
        assert_eq!(new.size, old.size);
        let dx = (pointer_x - old.x) as i128;
        let dy = (pointer_y - old.y) as i128;
        let dd = dx * dx + dy * dy;
        if dd < RADIUS_SQ {
            reacted += 1;
            // the expected step, by the model: five pixels along (dx, dy),
            // truncated toward zero
            let (sx, sy) = if dx == 0 && dy == 0 {
                (STEP, 0)
            } else {
                let d = isqrt(dd as u64) as i128;
                let mx = (STEP as i128) * dx.abs() / d;
                let my = (STEP as i128) * dy.abs() / d;
                (
                    (if dx >= 0 { mx } else { -mx }) as i64,
                    (if dy >= 0 { my } else { -my }) as i64,
                )
            };
            assert_eq!(new.x, old.x + sx);
            assert_eq!(new.y, old.y + sy);
            // five pixels long, along the documented angle
            let fdx = (new.x - old.x) as f64 / SCALE_F;
            let fdy = (new.y - old.y) as f64 / SCALE_F;
            let len = (fdx * fdx + fdy * fdy).sqrt();
            assert!((len - 5.0).abs() < 1e-3);
            let angle = ((pointer_y - old.y) as f64).atan2((pointer_x - old.x) as f64);
            assert!((fdx - 5.0 * angle.cos()).abs() < 1e-3);
            assert!((fdy - 5.0 * angle.sin()).abs() < 1e-3);
        } else {
            assert_eq!(new, *old);
        }
    }
    assert!(reacted > 0);

    // the frame clears to black first, then draws all 1000 moved stars
    assert_eq!(frame.len(), 1001);
    assert_eq!(frame[0], DrawCmd::Clear { width: 800, height: 600 });
    for (i, s) in field.stars.iter().enumerate() {
        assert_eq!(frame[i + 1], DrawCmd::StarCircle { x: s.x, y: s.y, size: s.size });
    }
}
