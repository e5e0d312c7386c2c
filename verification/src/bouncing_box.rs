//! One axis of the box that bounces around the canvas.
//!
//! The box is `BOX_SIZE` wide. Each frame it moves by its velocity; when the
//! moved position reaches the near edge (0 or less) or the far edge (the
//! canvas extent less the box size, or more), the velocity turns round for
//! the next frame. The box starts at 50 with velocity 2 on both axes, so
//! every position and velocity it takes is a whole number of pixels.
use vstd::prelude::*;

verus! {

/// The box's width and height, in pixels.
pub const BOX_SIZE: i64 = 50;

/// Where the box starts, on each axis.
pub const START_POSITION: i64 = 50;

/// The velocity the box starts with, on each axis.
pub const START_VELOCITY: i64 = 2;

/// The velocity after a frame that moves from `pos` by `vel` on an axis of
/// length `extent`.
pub open spec fn next_velocity(pos: int, vel: int, extent: int) -> int {
    if pos + vel <= 0 || pos + vel >= extent - BOX_SIZE {
        -vel
    } else {
        vel
    }
}

/// One frame on one axis: the new position and the velocity for the next
/// frame.
pub fn bounce_step(pos: i64, vel: i64, extent: u32) -> (next: (i64, i64))
    requires
        i64::MIN < vel,
        i64::MIN <= pos + vel <= i64::MAX,
    ensures
        next.0 == pos + vel,
        next.1 == next_velocity(pos as int, vel as int, extent as int),
        0 < pos + vel < extent - BOX_SIZE ==> next.1 == vel,
        pos + vel <= 0 || pos + vel >= extent - BOX_SIZE ==> next.1 == -vel,
{
    let moved: i64 = pos + vel;
    let far_edge: i64 = extent as i64 - BOX_SIZE;
    if moved <= 0 || moved >= far_edge {
        (moved, -vel)
    } else {
        (moved, vel)
    }
}

/// The velocity turns round exactly when the moved box reaches an edge of
/// the canvas: strictly between the edges it is kept as it was.
pub proof fn lemma_turns_only_at_edges(pos: int, vel: int, extent: int)
    requires
        vel != 0,
    ensures
        next_velocity(pos, vel, extent) == vel <==> 0 < pos + vel < extent - BOX_SIZE,
        next_velocity(pos, vel, extent) == -vel <==> (pos + vel <= 0 || pos + vel >= extent
            - BOX_SIZE),
{
}

/// Position and velocity on one axis after `n` frames from the start.
pub open spec fn state_after_frames(n: nat, extent: int) -> (int, int)
    decreases n,
{
    if n == 0 {
        (START_POSITION as int, START_VELOCITY as int)
    } else {
        let (pos, vel) = state_after_frames((n - 1) as nat, extent);
        (pos + vel, next_velocity(pos, vel, extent))
    }
}

/// The box lies on the canvas and its next move keeps it there.
pub open spec fn on_canvas(pos: int, vel: int, extent: int) -> bool {
    &&& pos % 2 == 0
    &&& 0 <= pos <= extent - BOX_SIZE
    &&& (vel == 2 && pos < extent - BOX_SIZE) || (vel == -2 && pos > 0)
}

/// A frame keeps the box on the canvas, on an axis of even length.
pub proof fn lemma_step_keeps_on_canvas(pos: int, vel: int, extent: int)
    requires
        extent % 2 == 0,
        on_canvas(pos, vel, extent),
    ensures
        on_canvas(pos + vel, next_velocity(pos, vel, extent), extent),
{
}

/// On an axis of even length over 100 pixels, such as the canvas's 1140 by
/// 700, the box never leaves the canvas: every frame it lies between 0 and
/// the extent less its size, and it moves 2 pixels one way or the other.
pub proof fn lemma_box_stays_on_canvas(n: nat, extent: int)
    requires
        extent % 2 == 0,
        extent > 2 * BOX_SIZE,
    ensures
        on_canvas(state_after_frames(n, extent).0, state_after_frames(n, extent).1, extent),
        0 <= state_after_frames(n, extent).0 <= extent - BOX_SIZE,
        state_after_frames(n, extent).1 == 2 || state_after_frames(n, extent).1 == -2,
    decreases n,
{
    if n > 0 {
        lemma_box_stays_on_canvas((n - 1) as nat, extent);
        let (pos, vel) = state_after_frames((n - 1) as nat, extent);
        lemma_step_keeps_on_canvas(pos, vel, extent);
    }
}

} // verus!
