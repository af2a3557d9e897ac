//! The arithmetic of one frame: how long a step is, where the paddle and the
//! ball go, and when the ball is turned back.
//!
//! Every rule is a function on integers, stated once over the mathematical
//! integers and once as the executable function that computes it.

use vstd::prelude::*;
use crate::field::{
    clamp_coord, BAND_MAX, BAND_MIN, BOTTOM_EDGE, COORD_LIMIT, HALF_PADDLE, MAX_STEP_MS,
    PADDLE_MAX, PADDLE_MIN, PADDLE_SPEED, RIGHT_EDGE, TOP_EDGE,
};

verus! {

/// Milliseconds from the tick `last` to the tick `now` on a counter that starts
/// again at zero after `u32::MAX`.
pub open spec fn elapsed_ms(last: int, now: int) -> int {
    if now >= last { now - last } else { now - last + 0x1_0000_0000 }
}

/// The time step that an update integrates when `dt` milliseconds have passed:
/// `dt`, but never more than `MAX_STEP_MS`.
pub open spec fn effective_step(dt: int) -> int {
    if dt > MAX_STEP_MS as int { MAX_STEP_MS as int } else { dt }
}

/// How far the keys carry the paddle in `step` milliseconds, in units: up is
/// negative, down is positive, and both keys together cancel.
pub open spec fn paddle_travel(up: bool, down: bool, step: int) -> int {
    if up == down {
        0
    } else if down {
        (PADDLE_SPEED as int) * step
    } else {
        -((PADDLE_SPEED as int) * step)
    }
}

/// A paddle centre held between the walls.
pub open spec fn clamp_paddle(y: int) -> int {
    if y < PADDLE_MIN as int {
        PADDLE_MIN as int
    } else if y > PADDLE_MAX as int {
        PADDLE_MAX as int
    } else {
        y
    }
}

/// The paddle centre after `step` milliseconds with these keys held.
pub open spec fn paddle_after(y: int, up: bool, down: bool, step: int) -> int {
    clamp_paddle(y + paddle_travel(up, down, step))
}

/// A ball coordinate after `step` milliseconds at velocity `v`.
pub open spec fn coord_after(p: int, v: int, step: int) -> int {
    clamp_coord(p + v * step)
}

/// The ball is at the top wall and moving up.
pub open spec fn hits_top(y: int, vy: int) -> bool {
    y <= TOP_EDGE as int && vy < 0
}

/// The ball is at the bottom wall and not moving up.
pub open spec fn hits_bottom(y: int, vy: int) -> bool {
    y >= BOTTOM_EDGE as int && vy >= 0
}

/// The ball is at the right wall and not moving left.
pub open spec fn hits_right(x: int, vx: int) -> bool {
    x >= RIGHT_EDGE as int && vx >= 0
}

/// The ball is in the band in front of the paddle, level with it, and moving left.
pub open spec fn hits_paddle(x: int, y: int, vx: int, paddle_y: int) -> bool {
    &&& BAND_MIN as int <= x <= BAND_MAX as int
    &&& vx < 0
    &&& -(HALF_PADDLE as int) <= paddle_y - y <= HALF_PADDLE as int
}

/// The vertical velocity after the walls have been looked at.
pub open spec fn bounce_y(y: int, vy: int) -> int {
    if hits_top(y, vy) || hits_bottom(y, vy) { -vy } else { vy }
}

/// The horizontal velocity after the right wall and the paddle have been looked at.
pub open spec fn bounce_x(x: int, y: int, vx: int, paddle_y: int) -> int {
    if hits_right(x, vx) || hits_paddle(x, y, vx, paddle_y) { -vx } else { vx }
}

/// Milliseconds between two readings of a tick counter that wraps around.
pub fn elapsed(last: u32, now: u32) -> (dt: u32)
    ensures
        dt == elapsed_ms(last as int, now as int),
{
    if now >= last {
        now - last
    } else {
        (u32::MAX - last) + now + 1
    }
}

/// Caps an elapsed time at the longest step.
pub fn clamp_step(dt: u32) -> (step: u32)
    ensures
        step == effective_step(dt as int),
        step <= MAX_STEP_MS,
{
    if dt > MAX_STEP_MS { MAX_STEP_MS } else { dt }
}

/// Moves the paddle for `step` milliseconds and keeps it between the walls.
pub fn move_paddle(y: i64, up: bool, down: bool, step: u32) -> (r: i64)
    ensures
        r == paddle_after(y as int, up, down, step as int),
        PADDLE_MIN <= r <= PADDLE_MAX,
{
    let travel: i128 = (PADDLE_SPEED as i128) * (step as i128);
    assert(travel == 300 * step);
    let mut moved: i128 = y as i128;
    if up {
        moved = moved - travel;
    }
    if down {
        moved = moved + travel;
    }
    if moved < PADDLE_MIN as i128 {
        PADDLE_MIN
    } else if moved > PADDLE_MAX as i128 {
        PADDLE_MAX
    } else {
        moved as i64
    }
}

/// Moves one ball coordinate for `step` milliseconds at velocity `v`.
pub fn advance_coord(p: i64, v: i64, step: u32) -> (r: i64)
    ensures
        r == coord_after(p as int, v as int, step as int),
        -COORD_LIMIT <= r <= COORD_LIMIT,
{
    assert(-0x8000_0000_0000_0000 * 0x1_0000_0000 <= (v as int) * (step as int)
        <= 0x8000_0000_0000_0000 * 0x1_0000_0000) by (nonlinear_arith)
        requires
            -0x8000_0000_0000_0000 <= (v as int) < 0x8000_0000_0000_0000,
            0 <= (step as int) < 0x1_0000_0000,
    ;
    let moved: i128 = (p as i128) + (v as i128) * (step as i128);
    if moved > COORD_LIMIT as i128 {
        COORD_LIMIT
    } else if moved < -(COORD_LIMIT as i128) {
        -COORD_LIMIT
    } else {
        moved as i64
    }
}

/// Turns the vertical velocity round where the ball meets the top or the
/// bottom wall.
pub fn reflect_y(y: i64, vy: i64) -> (r: i64)
    requires
        vy > i64::MIN,
    ensures
        r == bounce_y(y as int, vy as int),
{
    let mut v: i64 = vy;
    if y <= TOP_EDGE && v < 0 {
        v = -v;
    }
    if y >= BOTTOM_EDGE && v >= 0 {
        v = -v;
    }
    v
}

/// Turns the horizontal velocity round where the ball meets the right wall or
/// the paddle.
pub fn reflect_x(x: i64, y: i64, vx: i64, paddle_y: i64) -> (r: i64)
    requires
        vx > i64::MIN,
    ensures
        r == bounce_x(x as int, y as int, vx as int, paddle_y as int),
{
    let mut v: i64 = vx;
    if x >= RIGHT_EDGE && v >= 0 {
        v = -v;
    }
    let diff: i128 = (paddle_y as i128) - (y as i128);
    if -(HALF_PADDLE as i128) <= diff && diff <= HALF_PADDLE as i128 && x <= BAND_MAX
        && x >= BAND_MIN && v < 0 {
        v = -v;
    }
    v
}

/// The magnitude of an integer.
pub open spec fn magnitude(v: int) -> int {
    if v < 0 { -v } else { v }
}

/// However much time has passed, the step that is integrated is no longer
/// than `MAX_STEP_MS`; time that has passed is never lengthened, and a time
/// within the limit is taken as it is.
pub proof fn lemma_step_bounded(dt: int)
    ensures
        effective_step(dt) <= MAX_STEP_MS,
        effective_step(dt) <= dt,
        dt <= MAX_STEP_MS ==> effective_step(dt) == dt,
        dt >= 0 ==> effective_step(dt) >= 0,
{
}

/// Wherever the paddle was, whatever keys are held and however long the step,
/// the moved paddle lies wholly between the top and the bottom wall.
pub proof fn lemma_paddle_between_walls(y: int, up: bool, down: bool, step: int)
    ensures
        PADDLE_MIN <= paddle_after(y, up, down, step) <= PADDLE_MAX,
        TOP_EDGE <= paddle_after(y, up, down, step) - HALF_PADDLE,
        paddle_after(y, up, down, step) + HALF_PADDLE <= BOTTOM_EDGE,
{
}

/// A paddle between the walls moves exactly as far as the keys carry it unless
/// a wall stops it, and with no key or both keys held it stays where it is.
pub proof fn lemma_paddle_free_motion(y: int, up: bool, down: bool, step: int)
    requires
        PADDLE_MIN <= y <= PADDLE_MAX,
    ensures
        PADDLE_MIN <= y + paddle_travel(up, down, step) <= PADDLE_MAX ==> paddle_after(
            y,
            up,
            down,
            step,
        ) == y + paddle_travel(up, down, step),
        up == down ==> paddle_after(y, up, down, step) == y,
{
}

/// In one step a ball coordinate moves no further than its speed times the
/// step, and so no further than its speed times `MAX_STEP_MS`.
pub proof fn lemma_travel_bounded(p: int, v: int, dt: int)
    requires
        -COORD_LIMIT <= p <= COORD_LIMIT,
        dt >= 0,
    ensures
        magnitude(coord_after(p, v, effective_step(dt)) - p) <= magnitude(v) * effective_step(dt),
        magnitude(coord_after(p, v, effective_step(dt)) - p) <= magnitude(v) * MAX_STEP_MS,
{
    let step = effective_step(dt);
    assert(magnitude(v * step) == magnitude(v) * step) by (nonlinear_arith)
        requires
            step >= 0,
    ;
    assert(magnitude(v) * step <= magnitude(v) * MAX_STEP_MS) by (nonlinear_arith)
        requires
            0 <= step <= MAX_STEP_MS,
            magnitude(v) >= 0,
    ;
}

/// No position qualifies for two contacts on one axis: the ball cannot be at
/// the top and at the bottom wall at once, nor at the right wall and at the
/// paddle.
pub proof fn lemma_contacts_exclusive(x: int, y: int, vx: int, vy: int, paddle_y: int)
    ensures
        !(hits_top(y, vy) && hits_bottom(y, vy)),
        !(hits_right(x, vx) && hits_paddle(x, y, vx, paddle_y)),
{
}

/// A velocity component is turned round exactly where a contact qualifies and
/// is otherwise kept; its magnitude never changes.
pub proof fn lemma_bounce_flips_on_contact(x: int, y: int, vx: int, vy: int, paddle_y: int)
    ensures
        hits_top(y, vy) || hits_bottom(y, vy) ==> bounce_y(y, vy) == -vy,
        !hits_top(y, vy) && !hits_bottom(y, vy) ==> bounce_y(y, vy) == vy,
        hits_right(x, vx) || hits_paddle(x, y, vx, paddle_y) ==> bounce_x(x, y, vx, paddle_y)
            == -vx,
        !hits_right(x, vx) && !hits_paddle(x, y, vx, paddle_y) ==> bounce_x(x, y, vx, paddle_y)
            == vx,
        magnitude(bounce_y(y, vy)) == magnitude(vy),
        magnitude(bounce_x(x, y, vx, paddle_y)) == magnitude(vx),
{
}

/// No double reflection: once the contacts at a position have been resolved,
/// resolving them again at the same position changes nothing. A component that
/// was turned round at one boundary is not turned back at another.
pub proof fn lemma_no_double_reflection(x: int, y: int, vx: int, vy: int, paddle_y: int)
    ensures
        bounce_y(y, bounce_y(y, vy)) == bounce_y(y, vy),
        bounce_x(x, y, bounce_x(x, y, vx, paddle_y), paddle_y) == bounce_x(x, y, vx, paddle_y),
        hits_top(y, vy) ==> !hits_bottom(y, -vy),
        hits_bottom(y, vy) ==> !hits_top(y, -vy),
        hits_right(x, vx) ==> !hits_paddle(x, y, -vx, paddle_y),
        hits_paddle(x, y, vx, paddle_y) ==> !hits_right(x, -vx),
{
}

/// After a contact the ball moves away from what it met: down from the top
/// wall, not down at the bottom wall, not right at the right wall, and right
/// from the paddle.
pub proof fn lemma_bounce_moves_away(x: int, y: int, vx: int, vy: int, paddle_y: int)
    ensures
        hits_top(y, vy) ==> bounce_y(y, vy) > 0,
        hits_bottom(y, vy) ==> bounce_y(y, vy) <= 0,
        hits_right(x, vx) ==> bounce_x(x, y, vx, paddle_y) <= 0,
        hits_paddle(x, y, vx, paddle_y) ==> bounce_x(x, y, vx, paddle_y) > 0,
{
}

} // verus!
