//! The starfield controller: one owner of the star collection and the
//! surface dimensions, driven by pointer-move and resize events.
//!
//! The shell that talks to the host window forwards each event here and
//! replays the returned frame on the canvas. A pointer move applies the
//! repulsion rule to every star and redraws; a resize adopts the new
//! viewport dimensions and redraws the same stars, neither regenerated nor
//! rescaled, so stars may fall outside the visible surface afterwards.

use vstd::prelude::*;
use crate::geom::{MAX_COORD, step_x, step_y};
use crate::star::{Star, star_wf, moved_star, in_radius, clamp_coord, star_of_draws, create_stars};
use crate::frame::{DrawCmd, frame_wf, draw_stars, draw_stars_with_movement};

verus! {

/// How many stars a session generates at startup.
pub const STAR_COUNT: usize = 1000;

/// The starfield: the stars and the surface's current pixel dimensions.
pub struct Starfield {
    pub stars: Vec<Star>,
    pub width: u32,
    pub height: u32,
}

impl Starfield {
    /// Every star the controller holds is well formed.
    pub open spec fn wf(self) -> bool {
        forall|i: int| 0 <= i < self.stars@.len() ==> star_wf(#[trigger] self.stars@[i])
    }

    /// Start a session: a surface of the given dimensions, populated with
    /// STAR_COUNT stars generated from the given uniform draws, three per
    /// star.
    pub fn new(width: u32, height: u32, draws: &Vec<u32>) -> (field: Starfield)
        requires
            draws@.len() == 3 * STAR_COUNT,
        ensures
            field.width == width,
            field.height == height,
            field.stars@.len() == STAR_COUNT,
            forall|i: int| 0 <= i < STAR_COUNT ==> #[trigger] field.stars@[i]
                == star_of_draws(draws@[3 * i], draws@[3 * i + 1], draws@[3 * i + 2], width, height),
            field.wf(),
    {
        Starfield { stars: create_stars(STAR_COUNT, width, height, draws), width, height }
    }

    /// Handle one pointer-move event: every star strictly within fifty
    /// pixels of the pointer takes one five-pixel step along the pointer
    /// direction, every other star stays put, and the returned frame clears
    /// the surface at its current dimensions and redraws every star.
    pub fn pointer_move(&mut self, px: i64, py: i64) -> (frame: Vec<DrawCmd>)
        requires
            old(self).wf(),
            -MAX_COORD <= px <= MAX_COORD,
            -MAX_COORD <= py <= MAX_COORD,
        ensures
            final(self).width == old(self).width,
            final(self).height == old(self).height,
            final(self).stars@.len() == old(self).stars@.len(),
            forall|i: int| 0 <= i < old(self).stars@.len()
                ==> #[trigger] final(self).stars@[i]
                    == moved_star(old(self).stars@[i], px as int, py as int),
            forall|i: int| 0 <= i < old(self).stars@.len()
                ==> #[trigger] final(self).stars@[i].size == old(self).stars@[i].size,
            final(self).wf(),
            frame_wf(frame@, final(self).stars@, old(self).width, old(self).height),
    {
        let width = self.width;
        let height = self.height;
        draw_stars_with_movement(&mut self.stars, px, py, width, height)
    }

    /// Handle one resize event: adopt the new viewport dimensions and redraw
    /// immediately; the stars themselves are left exactly as they were.
    pub fn resize(&mut self, width: u32, height: u32) -> (frame: Vec<DrawCmd>)
        requires
            old(self).wf(),
        ensures
            final(self).width == width,
            final(self).height == height,
            final(self).stars == old(self).stars,
            final(self).wf(),
            frame_wf(frame@, old(self).stars@, width, height),
    {
        self.width = width;
        self.height = height;
        draw_stars(&self.stars, width, height)
    }
}

/// The repulsion step of the first event leaves the star where the second
/// event's step starts: over two pointer-move events a reacting star's
/// displacement is the sum of the two events' step vectors, added to its
/// original position (as long as neither step runs against the coordinate
/// range, which sits about 17.6 trillion pixels out).
pub proof fn lemma_displacement_accumulates(s: Star, p1x: int, p1y: int, p2x: int, p2y: int)
    requires
        star_wf(s),
        in_radius(s, p1x, p1y),
        in_radius(moved_star(s, p1x, p1y), p2x, p2y),
        -(MAX_COORD as int) <= s.x + step_x(p1x - s.x, p1y - s.y) <= MAX_COORD as int,
        -(MAX_COORD as int) <= s.y + step_y(p1x - s.x, p1y - s.y) <= MAX_COORD as int,
        -(MAX_COORD as int) <= s.x + step_x(p1x - s.x, p1y - s.y)
            + step_x(p2x - moved_star(s, p1x, p1y).x, p2y - moved_star(s, p1x, p1y).y)
            <= MAX_COORD as int,
        -(MAX_COORD as int) <= s.y + step_y(p1x - s.x, p1y - s.y)
            + step_y(p2x - moved_star(s, p1x, p1y).x, p2y - moved_star(s, p1x, p1y).y)
            <= MAX_COORD as int,
    ensures
        moved_star(moved_star(s, p1x, p1y), p2x, p2y).x
            == s.x + step_x(p1x - s.x, p1y - s.y)
                + step_x(p2x - moved_star(s, p1x, p1y).x, p2y - moved_star(s, p1x, p1y).y),
        moved_star(moved_star(s, p1x, p1y), p2x, p2y).y
            == s.y + step_y(p1x - s.x, p1y - s.y)
                + step_y(p2x - moved_star(s, p1x, p1y).x, p2y - moved_star(s, p1x, p1y).y),
        moved_star(moved_star(s, p1x, p1y), p2x, p2y).size == s.size,
{
    let s1 = moved_star(s, p1x, p1y);
    assert(s1.x == clamp_coord(s.x + step_x(p1x - s.x, p1y - s.y)));
    assert(s1.x == s.x + step_x(p1x - s.x, p1y - s.y));
    assert(s1.y == s.y + step_y(p1x - s.x, p1y - s.y));
    let s2 = moved_star(s1, p2x, p2y);
    assert(s2.x == clamp_coord(s1.x + step_x(p2x - s1.x, p2y - s1.y)));
    assert(s2.y == clamp_coord(s1.y + step_y(p2x - s1.x, p2y - s1.y)));
}

} // verus!
