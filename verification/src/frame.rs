//! Frames: the ordered drawing commands of one render pass.
//!
//! A render pass never touches the surface directly here; it returns the
//! exact list of commands the shell must issue: first a clear of the whole
//! surface at its current dimensions, then one gradient circle per star, in
//! the collection's order. The shell replays the list against the canvas.

use vstd::prelude::*;
use crate::star::{Star, star_wf, moved_star, move_star};
use crate::geom::MAX_COORD;

verus! {

/// One drawing command of a frame.
#[derive(Clone, Copy, PartialEq, Eq, Structural, Debug)]
pub enum DrawCmd {
    /// Fill the whole surface, from the origin to (width, height) in pixels,
    /// with solid black.
    Clear { width: u32, height: u32 },
    /// One star: a full-circle arc of the given radius at (x, y), both in
    /// fixed-point units, filled with a radial gradient from opaque white at
    /// the center (inner radius a tenth of the star's radius) to transparent
    /// white at the rim.
    StarCircle { x: i64, y: i64, size: i64 },
}

/// The command that draws one star.
pub open spec fn circle_of(s: Star) -> DrawCmd {
    DrawCmd::StarCircle { x: s.x, y: s.y, size: s.size }
}

/// A complete frame for `stars` on a `width` by `height` surface: a clear of
/// the whole surface first, then every star's circle in collection order.
pub open spec fn frame_wf(frame: Seq<DrawCmd>, stars: Seq<Star>, width: u32, height: u32) -> bool {
    &&& frame.len() == stars.len() + 1
    &&& frame[0] == (DrawCmd::Clear { width, height })
    &&& forall|i: int| 1 <= i <= stars.len() ==> #[trigger] frame[i] == circle_of(stars[i - 1])
}

/// Render one static frame: clear the surface at its current dimensions,
/// then draw every star where it stands.
pub fn draw_stars(stars: &Vec<Star>, width: u32, height: u32) -> (frame: Vec<DrawCmd>)
    ensures
        frame_wf(frame@, stars@, width, height),
{
    let mut frame: Vec<DrawCmd> = Vec::new();
    frame.push(DrawCmd::Clear { width, height });
    let mut i: usize = 0;
    while i < stars.len()
        invariant
            i <= stars@.len(),
            frame@.len() == i + 1,
            frame@[0] == (DrawCmd::Clear { width, height }),
            forall|j: int| 1 <= j <= i ==> #[trigger] frame@[j] == circle_of(stars@[j - 1]),
        decreases stars@.len() - i,
    {
        let s = stars[i];
        frame.push(DrawCmd::StarCircle { x: s.x, y: s.y, size: s.size });
        i += 1;
    }
    frame
}

/// Render one interactive frame: move every star per the repulsion rule
/// against the pointer at (px, py), in collection order, and return the
/// frame that clears the surface and draws every star at its new place.
pub fn draw_stars_with_movement(
    stars: &mut Vec<Star>,
    px: i64,
    py: i64,
    width: u32,
    height: u32,
) -> (frame: Vec<DrawCmd>)
    requires
        forall|i: int| 0 <= i < old(stars)@.len() ==> star_wf(#[trigger] old(stars)@[i]),
        -MAX_COORD <= px <= MAX_COORD,
        -MAX_COORD <= py <= MAX_COORD,
    ensures
        final(stars)@.len() == old(stars)@.len(),
        forall|i: int| 0 <= i < old(stars)@.len()
            ==> #[trigger] final(stars)@[i] == moved_star(old(stars)@[i], px as int, py as int),
        forall|i: int| 0 <= i < old(stars)@.len() ==> star_wf(#[trigger] final(stars)@[i]),
        forall|i: int| 0 <= i < old(stars)@.len()
            ==> #[trigger] final(stars)@[i].size == old(stars)@[i].size,
        frame_wf(frame@, final(stars)@, width, height),
{
    let mut frame: Vec<DrawCmd> = Vec::new();
    frame.push(DrawCmd::Clear { width, height });
    let end = stars.len();
    let mut i: usize = 0;
    while i < end
        invariant
            i <= end == stars@.len() == old(stars)@.len(),
            -MAX_COORD <= px <= MAX_COORD,
            -MAX_COORD <= py <= MAX_COORD,
            forall|j: int| 0 <= j < end ==> star_wf(#[trigger] old(stars)@[j]),
            forall|j: int| 0 <= j < i
                ==> #[trigger] stars@[j] == moved_star(old(stars)@[j], px as int, py as int),
            forall|j: int| 0 <= j < i ==> star_wf(#[trigger] stars@[j]),
            forall|j: int| i <= j < end ==> #[trigger] stars@[j] == old(stars)@[j],
            frame@.len() == i + 1,
            frame@[0] == (DrawCmd::Clear { width, height }),
            forall|j: int| 1 <= j <= i ==> #[trigger] frame@[j] == circle_of(stars@[j - 1]),
        decreases end - i,
    {
        move_star(&mut stars[i], px, py);
        let s = stars[i];
        frame.push(DrawCmd::StarCircle { x: s.x, y: s.y, size: s.size });
        i += 1;
    }
    frame
}

} // verus!
