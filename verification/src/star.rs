//! Stars: generation from uniform draws, and the pointer repulsion rule.
//!
//! A uniform draw is a `u32` standing for the fraction `draw / 2^32` of the
//! unit interval. A star's coordinates are the draws scaled to the surface
//! (`x` uniform over `[0, width)` pixels, `y` over `[0, height)`) and its
//! radius is one pixel plus the draw's fraction of three pixels, all in
//! fixed-point units of 1/65536 pixel.

use vstd::prelude::*;
use crate::geom::{SCALE, MAX_COORD, RADIUS_SQ, step_x, step_y, repulsion_step};

verus! {

/// One point of light: fixed-point position and radius.
#[derive(Clone, Copy, PartialEq, Eq, Structural, Debug)]
pub struct Star {
    pub x: i64,
    pub y: i64,
    pub size: i64,
}

/// A star the model accepts: position inside the coordinate range, radius in
/// [1, 4) pixels.
pub open spec fn star_wf(s: Star) -> bool {
    &&& -(MAX_COORD as int) <= s.x <= MAX_COORD as int
    &&& -(MAX_COORD as int) <= s.y <= MAX_COORD as int
    &&& SCALE as int <= s.size < 4 * (SCALE as int)
}

/// Confine a coordinate to the model's range.
pub open spec fn clamp_coord(v: int) -> int {
    if v > MAX_COORD as int {
        MAX_COORD as int
    } else if v < -(MAX_COORD as int) {
        -(MAX_COORD as int)
    } else {
        v
    }
}

/// The pointer is strictly within the repulsion radius (fifty pixels) of the
/// star.
pub open spec fn in_radius(s: Star, px: int, py: int) -> bool {
    (px - s.x) * (px - s.x) + (py - s.y) * (py - s.y) < RADIUS_SQ as int
}

/// What one pointer-move event does to one star: a star strictly within the
/// repulsion radius takes one step along the direction from itself toward
/// the pointer; any other star is left alone. The radius never changes.
pub open spec fn moved_star(s: Star, px: int, py: int) -> Star {
    if in_radius(s, px, py) {
        Star {
            x: clamp_coord(s.x + step_x(px - s.x, py - s.y)) as i64,
            y: clamp_coord(s.y + step_y(px - s.x, py - s.y)) as i64,
            size: s.size,
        }
    } else {
        s
    }
}

fn clamp_coord_exec(v: i64) -> (r: i64)
    ensures
        r as int == clamp_coord(v as int),
{
    if v > MAX_COORD {
        MAX_COORD
    } else if v < -MAX_COORD {
        -MAX_COORD
    } else {
        v
    }
}

/// Apply one pointer-move event to one star.
pub fn move_star(s: &mut Star, px: i64, py: i64)
    requires
        star_wf(*old(s)),
        -MAX_COORD <= px <= MAX_COORD,
        -MAX_COORD <= py <= MAX_COORD,
    ensures
        *final(s) == moved_star(*old(s), px as int, py as int),
        star_wf(*final(s)),
        final(s).size == old(s).size,
{
    let dx = px - s.x;
    let dy = py - s.y;
    proof {
        assert((dx as int) * (dx as int) <= 2305843009213693952 * 2305843009213693952
            && (dx as int) * (dx as int) >= 0) by (nonlinear_arith)
            requires -2305843009213693952 <= dx as int <= 2305843009213693952;
        assert((dy as int) * (dy as int) <= 2305843009213693952 * 2305843009213693952
            && (dy as int) * (dy as int) >= 0) by (nonlinear_arith)
            requires -2305843009213693952 <= dy as int <= 2305843009213693952;
    }
    let dd: i128 = (dx as i128) * (dx as i128) + (dy as i128) * (dy as i128);
    if dd < RADIUS_SQ as i128 {
        let (sx, sy) = repulsion_step(dx, dy);
        let nx = clamp_coord_exec(s.x + sx);
        let ny = clamp_coord_exec(s.y + sy);
        s.x = nx;
        s.y = ny;
    }
}

/// A coordinate drawn as `draw / 2^32` of `dim` pixels, in fixed-point
/// units: `(draw * dim) / 65536`.
pub open spec fn coord_of_draw(r: u32, dim: u32) -> int {
    ((r as int) * (dim as int)) / 65536
}

/// A radius of one pixel plus `draw / 2^32` of three pixels, in fixed-point
/// units.
pub open spec fn size_of_draw(r: u32) -> int {
    (SCALE as int) + (3 * (r as int)) / 65536
}

/// The star made from three consecutive uniform draws.
pub open spec fn star_of_draws(rx: u32, ry: u32, rs: u32, width: u32, height: u32) -> Star {
    Star {
        x: coord_of_draw(rx, width) as i64,
        y: coord_of_draw(ry, height) as i64,
        size: size_of_draw(rs) as i64,
    }
}

fn coord_from_draw(r: u32, dim: u32) -> (c: i64)
    ensures
        c as int == coord_of_draw(r, dim),
        0 <= c,
        dim > 0 ==> (c as int) < (dim as int) * (SCALE as int),
        dim == 0 ==> c == 0,
{
    proof {
        assert((r as int) * (dim as int) <= 0xFFFF_FFFF * 0xFFFF_FFFF
            && (r as int) * (dim as int) >= 0) by (nonlinear_arith)
            requires r <= 0xFFFF_FFFF, dim <= 0xFFFF_FFFF;
    }
    let c: u64 = ((r as u64) * (dim as u64)) / 65536;
    proof {
        vstd::arithmetic::div_mod::lemma_div_pos_is_pos((r as int) * (dim as int), 65536);
        if dim > 0 {
            assert((r as int) * (dim as int) < 65536 * ((dim as int) * (SCALE as int)))
                by (nonlinear_arith)
                requires r <= 0xFFFF_FFFF, dim > 0;
            vstd::arithmetic::div_mod::lemma_multiply_divide_lt(
                (r as int) * (dim as int), 65536, (dim as int) * (SCALE as int));
        } else {
            assert((r as int) * (dim as int) == 0) by (nonlinear_arith)
                requires dim == 0;
        }
        assert((dim as int) * (SCALE as int) <= 0xFFFF_FFFF * 65536) by (nonlinear_arith)
            requires dim <= 0xFFFF_FFFF;
    }
    c as i64
}

fn size_from_draw(r: u32) -> (s: i64)
    ensures
        s as int == size_of_draw(r),
        SCALE <= s < 4 * SCALE,
{
    let frac: u64 = (3 * (r as u64)) / 65536;
    proof {
        vstd::arithmetic::div_mod::lemma_div_pos_is_pos(3 * (r as int), 65536);
        vstd::arithmetic::div_mod::lemma_multiply_divide_lt(3 * (r as int), 65536, 3 * 65536int);
    }
    65536 + (frac as i64)
}

/// Generate `count` stars from `3 * count` uniform draws, three per star in
/// the order x, y, size. Every coordinate is uniform over `[0, width)`
/// (respectively `[0, height)`) pixels, pinned to zero when the dimension is
/// zero, and every radius lies in [1, 4) pixels.
pub fn create_stars(count: usize, width: u32, height: u32, draws: &Vec<u32>) -> (stars: Vec<Star>)
    requires
        draws@.len() == 3 * count,
    ensures
        stars@.len() == count,
        forall|i: int| 0 <= i < count ==> #[trigger] stars@[i]
            == star_of_draws(draws@[3 * i], draws@[3 * i + 1], draws@[3 * i + 2], width, height),
        forall|i: int| 0 <= i < count ==> star_wf(#[trigger] stars@[i]),
        forall|i: int| 0 <= i < count
            ==> 0 <= #[trigger] stars@[i].x && 0 <= stars@[i].y
                && SCALE as int <= stars@[i].size < 4 * (SCALE as int),
        width > 0 ==> forall|i: int| 0 <= i < count
            ==> #[trigger] stars@[i].x < (width as int) * (SCALE as int),
        height > 0 ==> forall|i: int| 0 <= i < count
            ==> #[trigger] stars@[i].y < (height as int) * (SCALE as int),
        width == 0 ==> forall|i: int| 0 <= i < count ==> #[trigger] stars@[i].x == 0,
        height == 0 ==> forall|i: int| 0 <= i < count ==> #[trigger] stars@[i].y == 0,
{
    let mut stars: Vec<Star> = Vec::new();
    let total: usize = draws.len();
    let mut i: usize = 0;
    while i < count
        invariant
            draws@.len() == 3 * count,
            total == 3 * count,
            i <= count,
            stars@.len() == i,
            forall|j: int| 0 <= j < i ==> #[trigger] stars@[j]
                == star_of_draws(draws@[3 * j], draws@[3 * j + 1], draws@[3 * j + 2], width, height),
            forall|j: int| 0 <= j < i ==> star_wf(#[trigger] stars@[j]),
            forall|j: int| 0 <= j < i
                ==> 0 <= #[trigger] stars@[j].x && 0 <= stars@[j].y
                    && SCALE as int <= stars@[j].size < 4 * (SCALE as int),
            width > 0 ==> forall|j: int| 0 <= j < i
                ==> #[trigger] stars@[j].x < (width as int) * (SCALE as int),
            height > 0 ==> forall|j: int| 0 <= j < i
                ==> #[trigger] stars@[j].y < (height as int) * (SCALE as int),
            width == 0 ==> forall|j: int| 0 <= j < i ==> #[trigger] stars@[j].x == 0,
            height == 0 ==> forall|j: int| 0 <= j < i ==> #[trigger] stars@[j].y == 0,
        decreases count - i,
    {
        let x = coord_from_draw(draws[3 * i], width);
        let y = coord_from_draw(draws[3 * i + 1], height);
        let size = size_from_draw(draws[3 * i + 2]);
        proof {
            if width == 0 {
                assert(coord_of_draw(draws@[3 * i as int], width) == 0);
            }
            if height == 0 {
                assert(coord_of_draw(draws@[3 * i as int + 1], height) == 0);
            }
            assert((MAX_COORD as int) >= 0xFFFF_FFFF * 65536);
        }
        stars.push(Star { x, y, size });
        i += 1;
    }
    stars
}

/// No pointer-move event alters a star's radius: only the position reacts to
/// the pointer.
pub proof fn lemma_pointer_event_keeps_size(s: Star, px: int, py: int)
    ensures
        moved_star(s, px, py).size == s.size,
{
}

/// A star at distance at least fifty pixels from the pointer is left exactly
/// where it was.
pub proof fn lemma_far_star_unmoved(s: Star, px: int, py: int)
    requires
        !in_radius(s, px, py),
    ensures
        moved_star(s, px, py) == s,
{
}

} // verus!
