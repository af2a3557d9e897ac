//! What holds of the game whatever is played: statements about states and
//! their successors, each proved from the definitions.

use vstd::prelude::*;
use crate::field::{
    BAND_MIN, COORD_LIMIT, FRAME_MS, MAX_STEP_MS, PADDLE_MAX, PADDLE_MIN, PADDLE_SPEED,
};
use crate::game::{lemma_events_pass_kept_by, Action, State};
use crate::input::{Event, Key, Keys};
use crate::physics::{
    bounce_x, bounce_y, effective_step, elapsed_ms, hits_bottom, hits_paddle, hits_right,
    hits_top, lemma_travel_bounded, magnitude, paddle_travel,
};

verus! {

/// Number of events in a run that switch between paused and playing.
pub open spec fn toggle_count(events: Seq<Event>) -> nat
    decreases events.len(),
{
    if events.len() == 0 {
        0
    } else {
        toggle_count(events.drop_last()) + if events.last().toggles() { 1nat } else { 0nat }
    }
}

/// An update leaves a valid state valid. In particular the paddle lies
/// between the walls after every update, whatever time has passed and
/// whatever keys are held.
pub proof fn lemma_update_keeps_valid(s: State, dt: int, keys: Keys)
    requires
        s.valid(),
    ensures
        s.after_update(dt, keys).valid(),
        PADDLE_MIN <= s.after_update(dt, keys).paddle.y <= PADDLE_MAX,
{
}

/// A frame at a tick of the counter leaves a valid state valid.
pub proof fn lemma_tick_keeps_valid(s: State, now: int, keys: Keys)
    requires
        s.valid(),
        0 <= now <= u32::MAX,
    ensures
        s.after_tick(now, keys).valid(),
{
}

/// Events leave a valid state valid: they change nothing but the two flags.
pub proof fn lemma_events_keep_valid(s: State, events: Seq<Event>)
    requires
        s.valid(),
    ensures
        s.after_events(events).valid(),
        s.after_events(events).ticks == s.ticks,
        s.after_events(events).paddle == s.paddle,
        s.after_events(events).ball == s.ball,
        s.after_events(events).vel == s.vel,
    decreases events.len(),
{
    if events.len() > 0 {
        lemma_events_keep_valid(s, events.drop_last());
    }
}

/// What a run of events comes to: the game is still running exactly if it was
/// running and none of the events ends it, and it has changed between paused
/// and playing exactly if an odd number of them switch.
pub proof fn lemma_events_summary(s: State, events: Seq<Event>)
    ensures
        s.after_events(events).running == (s.running && forall|i: int|
            0 <= i < events.len() ==> !(#[trigger] events[i]).stops()),
        s.after_events(events).paused == (s.paused != (toggle_count(events) % 2 == 1)),
    decreases events.len(),
{
    if events.len() > 0 {
        let front = events.drop_last();
        lemma_events_summary(s, front);
        assert forall|i: int| 0 <= i < front.len() implies front[i] == events[i] by {}
        if events.last().stops() {
            assert(events[events.len() - 1].stops());
        } else if forall|i: int| 0 <= i < front.len() ==> !(#[trigger] front[i]).stops() {
            assert forall|i: int| 0 <= i < events.len() implies !(#[trigger] events[i]).stops() by {
                if i < front.len() {
                    assert(front[i] == events[i]);
                }
            }
        } else {
            let i = choose|i: int| 0 <= i < front.len() && (#[trigger] front[i]).stops();
            assert(events[i].stops());
        }
    }
}

/// One turn of the game loop leaves a valid state valid.
pub proof fn lemma_turn_keeps_valid(s: State, events: Seq<Event>, now: int, keys: Keys)
    requires
        s.valid(),
        0 <= now <= u32::MAX,
    ensures
        s.after_turn(events, now, keys).valid(),
{
    lemma_events_keep_valid(s, s.pending);
    lemma_events_keep_valid(s.after_events(s.pending), events);
}

/// Time beyond the longest step counts for nothing: an update after a long
/// stall is the update after `MAX_STEP_MS`, and every update is the update
/// for its effective step.
pub proof fn lemma_update_uses_clamped_step(s: State, dt: int, keys: Keys)
    ensures
        effective_step(dt) <= MAX_STEP_MS,
        s.after_update(dt, keys) == s.after_update(effective_step(dt), keys),
        dt >= MAX_STEP_MS ==> s.after_update(dt, keys) == s.after_update(MAX_STEP_MS as int, keys),
{
}

/// In one update the ball moves, along each axis, no further than its speed
/// carries it in `MAX_STEP_MS`.
pub proof fn lemma_update_travel_bounded(s: State, dt: int, keys: Keys)
    requires
        s.valid(),
        dt >= 0,
    ensures
        magnitude(s.after_update(dt, keys).ball.x - s.ball.x) <= magnitude(s.vel.x) * MAX_STEP_MS,
        magnitude(s.after_update(dt, keys).ball.y - s.ball.y) <= magnitude(s.vel.y) * MAX_STEP_MS,
{
    lemma_travel_bounded(s.ball.x, s.vel.x, dt);
    lemma_travel_bounded(s.ball.y, s.vel.y, dt);
    assert(magnitude(s.vel.x) * MAX_STEP_MS >= 0) by (nonlinear_arith)
        requires
            magnitude(s.vel.x) >= 0,
    ;
    assert(magnitude(s.vel.y) * MAX_STEP_MS >= 0) by (nonlinear_arith)
        requires
            magnitude(s.vel.y) >= 0,
    ;
}

/// In one update each component of the ball's velocity is turned round at
/// most once: it is turned exactly if the moved ball qualifies for a contact
/// on that axis, it keeps its magnitude, and at the place the ball has come
/// to nothing turns it again.
pub proof fn lemma_update_reflects_once(s: State, dt: int, keys: Keys)
    requires
        !s.paused,
    ensures
        ({
            let t = s.after_update(dt, keys);
            &&& t.vel.x == if hits_right(t.ball.x, s.vel.x) || hits_paddle(
                t.ball.x,
                t.ball.y,
                s.vel.x,
                t.paddle.y,
            ) {
                -s.vel.x
            } else {
                s.vel.x
            }
            &&& t.vel.y == if hits_top(t.ball.y, s.vel.y) || hits_bottom(t.ball.y, s.vel.y) {
                -s.vel.y
            } else {
                s.vel.y
            }
            &&& bounce_x(t.ball.x, t.ball.y, t.vel.x, t.paddle.y) == t.vel.x
            &&& bounce_y(t.ball.y, t.vel.y) == t.vel.y
        }),
{
}

/// A ball that has passed the paddle is gone: once it is on the near side of
/// the band and moving left, an update neither turns it round nor brings it
/// back, and as long as time passes and the limit is not reached it moves on.
pub proof fn lemma_missed_ball_keeps_going(s: State, dt: int, keys: Keys)
    requires
        s.valid(),
        dt >= 0,
        s.ball.x < BAND_MIN,
        s.vel.x < 0,
    ensures
        s.after_update(dt, keys).vel.x == s.vel.x,
        s.after_update(dt, keys).ball.x <= s.ball.x,
        s.after_update(dt, keys).ball.x < BAND_MIN,
        !s.paused && dt >= 1 ==> s.after_update(dt, keys).ball.x <= further_left(s.ball.x, 1),
{
    let step = effective_step(dt);
    assert(s.vel.x * step <= 0) by (nonlinear_arith)
        requires
            s.vel.x < 0,
            step >= 0,
    ;
    if dt >= 1 {
        assert(s.vel.x * step <= -1) by (nonlinear_arith)
            requires
                s.vel.x <= -1,
                step >= 1,
        ;
    }
}

/// The coordinate `n` units to the left of `x`, but no further than the limit.
pub open spec fn further_left(x: int, n: int) -> int {
    if x - n < -(COORD_LIMIT as int) { -(COORD_LIMIT as int) } else { x - n }
}

/// A ball that has passed the paddle leaves the field and does not come back:
/// in a game that is not paused, after any run of updates in each of which
/// time has passed, the ball still moves left as fast as before and lies at
/// least one unit further left for every update, as far as the limit. After
/// more updates than it was units from the left edge, it is out of the field.
pub proof fn lemma_missed_ball_leaves_field(s: State, frames: Seq<(int, Keys)>)
    requires
        s.valid(),
        !s.paused,
        s.ball.x < BAND_MIN,
        s.vel.x < 0,
        forall|i: int| 0 <= i < frames.len() ==> (#[trigger] frames[i]).0 >= 1,
    ensures
        s.after_updates(frames).valid(),
        !s.after_updates(frames).paused,
        s.after_updates(frames).vel.x == s.vel.x,
        s.after_updates(frames).ball.x <= further_left(s.ball.x, frames.len() as int),
        frames.len() > s.ball.x ==> s.after_updates(frames).ball.x < 0,
    decreases frames.len(),
{
    if frames.len() > 0 {
        let front = frames.drop_last();
        assert forall|i: int| 0 <= i < front.len() implies (#[trigger] front[i]).0 >= 1 by {
            assert(front[i] == frames[i]);
        }
        lemma_missed_ball_leaves_field(s, front);
        let before = s.after_updates(front);
        assert(frames.last() == frames[frames.len() - 1]);
        lemma_missed_ball_keeps_going(before, frames.last().0, frames.last().1);
    }
}

/// While the game is paused an update changes nothing at all.
pub proof fn lemma_paused_update_changes_nothing(s: State, dt: int, keys: Keys)
    requires
        s.paused,
    ensures
        s.after_update(dt, keys) == s,
{
}

/// While the game is paused any number of updates, with whatever times and
/// keys, changes nothing at all.
pub proof fn lemma_paused_updates_change_nothing(s: State, frames: Seq<(int, Keys)>)
    requires
        s.paused,
    ensures
        s.after_updates(frames) == s,
    decreases frames.len(),
{
    if frames.len() > 0 {
        lemma_paused_updates_change_nothing(s, frames.drop_last());
    }
}

/// While the game is paused any number of frames leaves the paddle, the ball
/// and its velocity where they are; only the tick of the last frame follows
/// the counter.
pub proof fn lemma_paused_frames_move_nothing(s: State, frames: Seq<(int, Keys)>)
    requires
        s.paused,
    ensures
        s.after_ticks(frames).paused,
        s.after_ticks(frames).running == s.running,
        s.after_ticks(frames).paddle == s.paddle,
        s.after_ticks(frames).ball == s.ball,
        s.after_ticks(frames).vel == s.vel,
        s.after_ticks(frames).owed == s.owed,
        s.after_ticks(frames).pending == s.pending,
    decreases frames.len(),
{
    if frames.len() > 0 {
        lemma_paused_frames_move_nothing(s, frames.drop_last());
    }
}

/// A game that is paused and taken up again goes on from where it stood: the
/// first frame after the pause is the update of the paddle, the ball and the
/// velocity as they were when the game was paused, by the time since the last
/// tick that the paused game noted. The time spent paused is dropped.
pub proof fn lemma_resume_is_clean(s: State, frames: Seq<(int, Keys)>, now: int, keys: Keys)
    requires
        s.paused,
        frames.len() > 0,
    ensures
        ({
            let held = s.after_ticks(frames);
            let resumed = held.after_event(Event::KeyDown(Key::Space));
            let last = frames.last().0;
            &&& resumed == (State { paused: false, ticks: last, ..s })
            &&& resumed.after_tick(now, keys) == (State {
                ticks: now,
                ..(State { paused: false, ..s }).after_update(elapsed_ms(last, now), keys)
            })
        }),
{
    lemma_paused_frames_move_nothing(s, frames);
    lemma_paused_frames_move_nothing(s, frames.drop_last());
}

/// A frame at the tick `now` of a game that is not paused integrates the time
/// since the last frame, but no more than `MAX_STEP_MS` of it: the ball moves
/// along each axis by exactly its velocity times that step, the paddle moves
/// no further than its speed carries it in that step, and `now` is noted as
/// the tick of the frame. The ball is taken to stay within the coordinate
/// limit, where it would come to rest.
pub proof fn lemma_frame_integrates_clamped_step(s: State, now: int, keys: Keys)
    requires
        s.valid(),
        !s.paused,
        0 <= now <= u32::MAX,
        -COORD_LIMIT <= s.ball.x + s.vel.x * effective_step(elapsed_ms(s.ticks, now))
            <= COORD_LIMIT,
        -COORD_LIMIT <= s.ball.y + s.vel.y * effective_step(elapsed_ms(s.ticks, now))
            <= COORD_LIMIT,
    ensures
        ({
            let step = effective_step(elapsed_ms(s.ticks, now));
            let t = s.after_tick(now, keys);
            &&& 0 <= step <= MAX_STEP_MS
            &&& t.ticks == now
            &&& t.ball.x == s.ball.x + s.vel.x * step
            &&& t.ball.y == s.ball.y + s.vel.y * step
            &&& magnitude(t.ball.x - s.ball.x) == magnitude(s.vel.x) * step
            &&& magnitude(t.ball.y - s.ball.y) == magnitude(s.vel.y) * step
            &&& magnitude(t.paddle.y - s.paddle.y) <= PADDLE_SPEED * step
            &&& PADDLE_SPEED * step <= PADDLE_SPEED * MAX_STEP_MS
        }),
{
    let step = effective_step(elapsed_ms(s.ticks, now));
    assert(magnitude(s.vel.x * step) == magnitude(s.vel.x) * step) by (nonlinear_arith)
        requires
            step >= 0,
    ;
    assert(magnitude(s.vel.y * step) == magnitude(s.vel.y) * step) by (nonlinear_arith)
        requires
            step >= 0,
    ;
    assert(paddle_travel(keys.up, keys.down, step) == 0 || paddle_travel(keys.up, keys.down, step)
        == 300 * step || paddle_travel(keys.up, keys.down, step) == -(300 * step));
}

/// A ball that has passed the paddle keeps leaving, frame after frame: in a
/// game that is not paused, a frame at any tick leaves its horizontal velocity
/// as it is and moves it by that velocity times the step, as far as the
/// coordinate limit. Nothing turns it round, brings it back or resets it.
pub proof fn lemma_missed_ball_frame(s: State, now: int, keys: Keys)
    requires
        s.valid(),
        !s.paused,
        0 <= now <= u32::MAX,
        s.ball.x < BAND_MIN,
        s.vel.x < 0,
    ensures
        ({
            let step = effective_step(elapsed_ms(s.ticks, now));
            let t = s.after_tick(now, keys);
            &&& t.valid()
            &&& !t.paused
            &&& t.vel.x == s.vel.x
            &&& t.ball.x == further_left(s.ball.x, -(s.vel.x * step))
            &&& t.ball.x <= s.ball.x
            &&& t.ball.x < BAND_MIN
        }),
{
    let step = effective_step(elapsed_ms(s.ticks, now));
    assert(s.vel.x * step <= 0) by (nonlinear_arith)
        requires
            s.vel.x < 0,
            step >= 0,
    ;
}

/// The same of every later frame: after any run of frames the ball still has
/// its horizontal velocity and lies no further right than before.
pub proof fn lemma_missed_ball_frames(s: State, frames: Seq<(int, Keys)>)
    requires
        s.valid(),
        !s.paused,
        s.ball.x < BAND_MIN,
        s.vel.x < 0,
        forall|i: int| 0 <= i < frames.len() ==> 0 <= (#[trigger] frames[i]).0 <= u32::MAX,
    ensures
        s.after_ticks(frames).valid(),
        !s.after_ticks(frames).paused,
        s.after_ticks(frames).vel.x == s.vel.x,
        s.after_ticks(frames).ball.x <= s.ball.x,
        s.after_ticks(frames).ball.x < BAND_MIN,
    decreases frames.len(),
{
    if frames.len() > 0 {
        let front = frames.drop_last();
        assert forall|i: int| 0 <= i < front.len() implies 0 <= (#[trigger] front[i]).0
            <= u32::MAX by {
            assert(front[i] == frames[i]);
        }
        lemma_missed_ball_frames(s, front);
        assert(frames.last() == frames[frames.len() - 1]);
        lemma_missed_ball_frame(s.after_ticks(front), frames.last().0, frames.last().1);
    }
}

/// A round owes its frame whether or not its events end the game. When a
/// round begins in a running game and the game is not paused after the
/// events, the turn never answers `Stop`: if the frame is due, the state is
/// the one after the events and then the frame, and the answer is to draw
/// what that state shows; if it is not due, the events have been taken, the
/// frame is owed, and the answer is to wait for the rest of the time.
pub proof fn lemma_round_owes_its_frame(s: State, events: Seq<Event>, now: int, keys: Keys)
    requires
        s.running,
        !s.owed,
        s.pending.len() == 0,
        !s.after_events(events).paused,
    ensures
        ({
            let taken = s.after_events(events);
            let t = s.after_turn(events, now, keys);
            let action = s.turn_action(events, now, keys);
            &&& action != Action::Stop
            &&& taken.wait_at(now) == 0 ==> t == taken.after_tick(now, keys) && action
                == Action::Draw(taken.after_tick(now, keys).scene())
            &&& taken.wait_at(now) > 0 ==> t == (State { owed: true, ..taken }) && action
                == Action::Wait(taken.wait_at(now) as u32)
        }),
{
    assert(s.pending =~= Seq::empty());
    assert(s.after_events(s.pending) == s);
    lemma_events_pass_kept_by(s, Seq::empty(), events);
    assert(s.after_intake(events) == s.after_events(events));
}

/// A frame that is owed is not lost, and the events that arrive before it is
/// drawn come after it. While a frame is owed, a turn changes nothing but the
/// events that are kept, until the frame is due; then it computes the frame
/// from the state as the round's own events left it.
pub proof fn lemma_owed_frame_is_kept(s: State, events: Seq<Event>, now: int, keys: Keys)
    requires
        s.owed,
    ensures
        ({
            let t = s.after_turn(events, now, keys);
            let action = s.turn_action(events, now, keys);
            &&& action != Action::Stop
            &&& t.pending == s.pending + events
            &&& s.wait_at(now) > 0 ==> t == (State { pending: s.pending + events, ..s }) && action
                == Action::Wait(s.wait_at(now) as u32)
            &&& s.wait_at(now) == 0 ==> t == (State {
                owed: false,
                pending: s.pending + events,
                ..s.after_tick(now, keys)
            }) && action == Action::Draw(s.after_tick(now, keys).scene())
        }),
{
}

/// A round that has to wait still draws its frame: if the first turn of a
/// round answers with a wait and a later turn comes when the frame is due,
/// that turn draws the frame of the state that the round's own events left,
/// also where they have ended the game, and keeps its own events for the next
/// round.
pub proof fn lemma_wait_then_frame(
    s: State,
    events: Seq<Event>,
    early: int,
    early_keys: Keys,
    late_events: Seq<Event>,
    late: int,
    late_keys: Keys,
)
    requires
        s.running,
        !s.owed,
        s.pending.len() == 0,
        !s.after_events(events).paused,
        s.after_events(events).wait_at(early) > 0,
        s.after_events(events).wait_at(late) == 0,
    ensures
        ({
            let taken = s.after_events(events);
            let waiting = s.after_turn(events, early, early_keys);
            &&& waiting.after_turn(late_events, late, late_keys) == (State {
                pending: late_events,
                ..taken.after_tick(late, late_keys)
            })
            &&& waiting.turn_action(late_events, late, late_keys) == Action::Draw(
                taken.after_tick(late, late_keys).scene(),
            )
        }),
{
    lemma_round_owes_its_frame(s, events, early, early_keys);
    lemma_events_pass_kept_by(s, Seq::empty(), events);
    let waiting = s.after_turn(events, early, early_keys);
    assert(waiting.pending =~= Seq::empty());
    assert(waiting.pending + late_events =~= late_events);
}

/// When a turn answers `Stop`: exactly when no frame is owed and either the
/// game is not running as the round begins, and then nothing is taken and
/// nothing changes, or the round's events have ended a game that is paused
/// after them.
pub proof fn lemma_stop(s: State, events: Seq<Event>, now: int, keys: Keys)
    ensures
        s.turn_action(events, now, keys) == Action::Stop <==> !s.owed && (!s.running || (
            s.after_intake(events).paused && !s.after_intake(events).running)),
        !s.owed && !s.running ==> s.after_turn(events, now, keys) == s,
{
}

/// A paused round moves nothing: a turn that begins a round in a running game
/// which is paused after its events leaves the paddle, the ball and its
/// velocity where they are and owes no frame. It answers with a wait of
/// `FRAME_MS`, or with `Stop` where the events have ended the game.
pub proof fn lemma_paused_round(s: State, events: Seq<Event>, now: int, keys: Keys)
    requires
        s.running,
        !s.owed,
        s.after_intake(events).paused,
    ensures
        ({
            let t = s.after_turn(events, now, keys);
            let action = s.turn_action(events, now, keys);
            &&& t.paddle == s.paddle
            &&& t.ball == s.ball
            &&& t.vel == s.vel
            &&& t.ticks == now
            &&& !t.owed
            &&& t.paused
            &&& t.running ==> action == Action::Wait(FRAME_MS)
            &&& !t.running ==> action == Action::Stop
        }),
{
    lemma_events_pass_kept_by(s, Seq::empty(), s.pending);
    lemma_events_pass_kept_by(s.after_events(s.pending), Seq::empty(), events);
}

} // verus!
