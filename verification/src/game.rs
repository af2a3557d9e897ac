//! The game itself: its state, how events and frames change it, and what it
//! shows.
//!
//! The game loop goes round by round. A round takes the events that have
//! arrived and then, unless the game is paused, owes one frame: it waits until
//! the frame is due, computes it and draws it. Whether the game is still
//! running is asked only when a round begins, so the round whose events end
//! the game still computes and draws its frame. A round may take several
//! turns, one call of `Game::advance` each; events handed over while a frame
//! is owed are kept for the round that follows.

use vstd::prelude::*;
use crate::field::{
    Vec2, Vector2, COORD_LIMIT, FRAME_MS, PADDLE_MAX, PADDLE_MIN, PADDLE_X, SPEED_LIMIT,
};
use crate::input::{Event, Key, Keys};
use crate::physics::{
    advance_coord, bounce_x, bounce_y, clamp_step, coord_after, effective_step, elapsed,
    elapsed_ms, move_paddle, paddle_after, reflect_x, reflect_y,
};
use crate::scene::{scene_of, Scene};

verus! {

/// The mathematical value of a game.
pub struct State {
    /// The game has started and has not been ended.
    pub running: bool,
    /// Frames leave the paddle and the ball where they are.
    pub paused: bool,
    /// The tick of the last frame, in milliseconds.
    pub ticks: int,
    /// Centre of the paddle, in units.
    pub paddle: Vec2,
    /// Centre of the ball, in units.
    pub ball: Vec2,
    /// Velocity of the ball, in pixels per second.
    pub vel: Vec2,
    /// The events of the current round have been taken and its frame is still
    /// to come.
    pub owed: bool,
    /// Events that have arrived while a frame was owed, in order. The next
    /// round takes them first.
    pub pending: Seq<Event>,
}

impl State {
    /// The state every game starts in: the ball in the middle of the field and
    /// on its way down to the left, the paddle half way up the left side.
    pub open spec fn initial() -> State {
        State {
            running: false,
            paused: false,
            ticks: 0,
            paddle: Vec2 { x: PADDLE_X as int, y: 384_000 },
            ball: Vec2 { x: 512_000, y: 384_000 },
            vel: Vec2 { x: -200, y: 235 },
            owed: false,
            pending: Seq::empty(),
        }
    }

    /// What holds of every game at all times: the paddle lies between the
    /// walls, and positions and velocities are within their limits.
    pub open spec fn valid(self) -> bool {
        &&& 0 <= self.ticks <= u32::MAX
        &&& self.paddle.x == PADDLE_X
        &&& PADDLE_MIN <= self.paddle.y <= PADDLE_MAX
        &&& -COORD_LIMIT <= self.ball.x <= COORD_LIMIT
        &&& -COORD_LIMIT <= self.ball.y <= COORD_LIMIT
        &&& -SPEED_LIMIT <= self.vel.x <= SPEED_LIMIT
        &&& -SPEED_LIMIT <= self.vel.y <= SPEED_LIMIT
    }

    /// The state after one event.
    pub open spec fn after_event(self, e: Event) -> State {
        if e.stops() {
            State { running: false, ..self }
        } else if e.toggles() {
            State { paused: !self.paused, ..self }
        } else {
            self
        }
    }

    /// The state after a run of events, taken in order.
    pub open spec fn after_events(self, events: Seq<Event>) -> State
        decreases events.len(),
    {
        if events.len() == 0 {
            self
        } else {
            self.after_events(events.drop_last()).after_event(events.last())
        }
    }

    /// The state after a frame in which `dt` milliseconds have passed with
    /// `keys` held. A paused game stays as it is. Otherwise the paddle moves,
    /// the ball moves, and then the ball is turned round where it has met a
    /// wall or the paddle.
    pub open spec fn after_update(self, dt: int, keys: Keys) -> State {
        if self.paused {
            self
        } else {
            let step = effective_step(dt);
            let paddle_y = paddle_after(self.paddle.y, keys.up, keys.down, step);
            let x = coord_after(self.ball.x, self.vel.x, step);
            let y = coord_after(self.ball.y, self.vel.y, step);
            State {
                paddle: Vec2 { x: self.paddle.x, y: paddle_y },
                ball: Vec2 { x, y },
                vel: Vec2 { x: bounce_x(x, y, self.vel.x, paddle_y), y: bounce_y(y, self.vel.y) },
                ..self
            }
        }
    }

    /// The state after a frame at the tick `now`: the time since the last
    /// frame is spent on an update, and `now` becomes the tick of the last
    /// frame. In a paused game the time is dropped.
    pub open spec fn after_tick(self, now: int, keys: Keys) -> State {
        State { ticks: now, ..self.after_update(elapsed_ms(self.ticks, now), keys) }
    }

    /// The state after a run of updates, each with the time that has passed
    /// and the keys that are held, taken in order.
    pub open spec fn after_updates(self, frames: Seq<(int, Keys)>) -> State
        decreases frames.len(),
    {
        if frames.len() == 0 {
            self
        } else {
            self.after_updates(frames.drop_last()).after_update(frames.last().0, frames.last().1)
        }
    }

    /// The state after a run of frames, each with its tick and the keys that
    /// are held, taken in order.
    pub open spec fn after_ticks(self, frames: Seq<(int, Keys)>) -> State
        decreases frames.len(),
    {
        if frames.len() == 0 {
            self
        } else {
            self.after_ticks(frames.drop_last()).after_tick(frames.last().0, frames.last().1)
        }
    }

    /// Milliseconds that have to pass after the tick `now` before the next
    /// frame is due: nothing once `FRAME_MS` have passed since the last one.
    pub open spec fn wait_at(self, now: int) -> int {
        if elapsed_ms(self.ticks, now) >= FRAME_MS as int {
            0
        } else {
            FRAME_MS as int - elapsed_ms(self.ticks, now)
        }
    }

    /// What this state shows.
    pub open spec fn scene(self) -> Scene {
        scene_of(self.paddle, self.ball)
    }

    /// The state when a round has taken its events: first those kept from the
    /// round before, then the new ones.
    pub open spec fn after_intake(self, events: Seq<Event>) -> State {
        State { pending: Seq::empty(), ..self.after_events(self.pending).after_events(events) }
    }

    /// The state after a try at the frame that is owed, at the tick `now`: as
    /// long as the frame is not due nothing changes, and once it is due it is
    /// computed and no longer owed.
    pub open spec fn after_frame(self, now: int, keys: Keys) -> State {
        if self.wait_at(now) > 0 {
            self
        } else {
            State { owed: false, ..self.after_tick(now, keys) }
        }
    }

    /// What the game loop has to do after that try: wait for the rest of the
    /// time, or draw the frame that has been computed.
    pub open spec fn frame_action(self, now: int, keys: Keys) -> Action {
        if self.wait_at(now) > 0 {
            Action::Wait(self.wait_at(now) as u32)
        } else {
            Action::Draw(self.after_tick(now, keys).scene())
        }
    }

    /// The state after one turn of the game loop at the tick `now`.
    ///
    /// While a frame is owed, the turn keeps the events for the next round and
    /// tries the frame. Otherwise a round begins. A game that is not running
    /// takes nothing. A running game takes its events; if it is paused after
    /// them it only notes the tick, and if it is not it owes a frame, whether
    /// or not the events have ended it, and tries that frame at once.
    pub open spec fn after_turn(self, events: Seq<Event>, now: int, keys: Keys) -> State {
        if self.owed {
            (State { pending: self.pending + events, ..self }).after_frame(now, keys)
        } else if !self.running {
            self
        } else {
            let s = self.after_intake(events);
            if s.paused {
                State { ticks: now, ..s }
            } else {
                (State { owed: true, ..s }).after_frame(now, keys)
            }
        }
    }

    /// What the game loop has to do after that turn.
    pub open spec fn turn_action(self, events: Seq<Event>, now: int, keys: Keys) -> Action {
        if self.owed {
            self.frame_action(now, keys)
        } else if !self.running {
            Action::Stop
        } else {
            let s = self.after_intake(events);
            if !s.paused {
                s.frame_action(now, keys)
            } else if s.running {
                Action::Wait(FRAME_MS)
            } else {
                Action::Stop
            }
        }
    }
}

/// Events change nothing but whether the game is running and whether it is
/// paused. In particular they pass by the events that are kept.
pub proof fn lemma_events_pass_kept_by(s: State, kept: Seq<Event>, events: Seq<Event>)
    ensures
        s.after_events(events) == (State {
            running: s.after_events(events).running,
            paused: s.after_events(events).paused,
            ..s
        }),
        (State { pending: kept, ..s }).after_events(events) == (State {
            pending: kept,
            ..s.after_events(events)
        }),
    decreases events.len(),
{
    if events.len() > 0 {
        lemma_events_pass_kept_by(s, kept, events.drop_last());
    }
}

/// What the game loop has to do after a turn.
#[derive(Clone, Copy, Debug, PartialEq, Eq, Structural)]
pub enum Action {
    /// Leave the loop: the game has ended.
    Stop,
    /// Let this many milliseconds pass and take the next turn: the game is
    /// paused, or the frame that is owed is not yet due.
    Wait(u32),
    /// Draw this scene: a frame has been computed.
    Draw(Scene),
}

/// A game of Pong.
#[derive(Debug, PartialEq, Eq)]
pub struct Game {
    is_running: bool,
    is_paused: bool,
    ticks: u32,
    paddle_pos: Vector2,
    ball_pos: Vector2,
    ball_vel: Vector2,
    frame_owed: bool,
    pending: Vec<Event>,
}

impl View for Game {
    type V = State;

    closed spec fn view(&self) -> State {
        State {
            running: self.is_running,
            paused: self.is_paused,
            ticks: self.ticks as int,
            paddle: self.paddle_pos@,
            ball: self.ball_pos@,
            vel: self.ball_vel@,
            owed: self.frame_owed,
            pending: self.pending@,
        }
    }
}

impl Game {
    #[verifier::type_invariant]
    closed spec fn well_formed(self) -> bool {
        self@.valid()
    }

    /// A game in its initial state.
    pub fn new() -> (game: Game)
        ensures
            game@ == State::initial(),
            game@.valid(),
    {
        Game {
            is_running: false,
            is_paused: false,
            ticks: 0,
            paddle_pos: Vector2 { x: PADDLE_X, y: 384_000 },
            ball_pos: Vector2 { x: 512_000, y: 384_000 },
            ball_vel: Vector2 { x: -200, y: 235 },
            frame_owed: false,
            pending: Vec::new(),
        }
    }

    /// A game with the paddle and the ball where the caller puts them, neither
    /// running nor paused, at tick zero. There is such a game exactly when the
    /// paddle lies between the walls and the ball's position and velocity are
    /// within their limits.
    pub fn from_parts(paddle_y: i64, ball_pos: Vector2, ball_vel: Vector2) -> (made: Option<Game>)
        ensures
            made.is_some() <==> (State {
                paddle: Vec2 { x: PADDLE_X as int, y: paddle_y as int },
                ball: ball_pos@,
                vel: ball_vel@,
                ..State::initial()
            }).valid(),
            made matches Some(game) ==> game@ == (State {
                paddle: Vec2 { x: PADDLE_X as int, y: paddle_y as int },
                ball: ball_pos@,
                vel: ball_vel@,
                ..State::initial()
            }),
    {
        if PADDLE_MIN <= paddle_y && paddle_y <= PADDLE_MAX && -COORD_LIMIT <= ball_pos.x
            && ball_pos.x <= COORD_LIMIT && -COORD_LIMIT <= ball_pos.y && ball_pos.y
            <= COORD_LIMIT && -SPEED_LIMIT <= ball_vel.x && ball_vel.x <= SPEED_LIMIT
            && -SPEED_LIMIT <= ball_vel.y && ball_vel.y <= SPEED_LIMIT {
            Some(
                Game {
                    is_running: false,
                    is_paused: false,
                    ticks: 0,
                    paddle_pos: Vector2 { x: PADDLE_X, y: paddle_y },
                    ball_pos,
                    ball_vel,
                    frame_owed: false,
                    pending: Vec::new(),
                },
            )
        } else {
            None
        }
    }

    /// Whether the game has started and has not been ended.
    pub fn is_running(&self) -> (r: bool)
        ensures
            r == self@.running,
    {
        self.is_running
    }

    /// Whether the game is paused.
    pub fn is_paused(&self) -> (r: bool)
        ensures
            r == self@.paused,
    {
        self.is_paused
    }

    /// The tick of the last frame, in milliseconds.
    pub fn ticks(&self) -> (r: u32)
        ensures
            r == self@.ticks,
    {
        self.ticks
    }

    /// Centre of the paddle, in units.
    pub fn paddle_pos(&self) -> (r: Vector2)
        ensures
            r@ == self@.paddle,
            r.x == PADDLE_X,
            PADDLE_MIN <= r.y <= PADDLE_MAX,
            self@.valid(),
    {
        proof {
            use_type_invariant(self);
        }
        self.paddle_pos
    }

    /// Centre of the ball, in units.
    pub fn ball_pos(&self) -> (r: Vector2)
        ensures
            r@ == self@.ball,
            -COORD_LIMIT <= r.x <= COORD_LIMIT,
            -COORD_LIMIT <= r.y <= COORD_LIMIT,
            self@.valid(),
    {
        proof {
            use_type_invariant(self);
        }
        self.ball_pos
    }

    /// Whether the events of the current round have been taken and its frame
    /// is still to come.
    pub fn frame_owed(&self) -> (r: bool)
        ensures
            r == self@.owed,
    {
        self.frame_owed
    }

    /// How many events are kept for the next round.
    pub fn pending_events(&self) -> (n: usize)
        ensures
            n == self@.pending.len(),
    {
        self.pending.len()
    }

    /// Velocity of the ball, in pixels per second.
    pub fn ball_vel(&self) -> (r: Vector2)
        ensures
            r@ == self@.vel,
            -SPEED_LIMIT <= r.x <= SPEED_LIMIT,
            -SPEED_LIMIT <= r.y <= SPEED_LIMIT,
            self@.valid(),
    {
        proof {
            use_type_invariant(self);
        }
        self.ball_vel
    }

    /// Starts the game.
    pub fn start(&mut self)
        ensures
            final(self)@ == (State { running: true, ..old(self)@ }),
            final(self)@.valid(),
    {
        proof {
            use_type_invariant(&*self);
        }
        self.is_running = true;
    }

    /// Takes one event: a request to close the window or the escape key ends
    /// the game, the space key switches between paused and playing, and
    /// anything else is passed over.
    pub fn handle_event(&mut self, event: Event)
        ensures
            final(self)@ == old(self)@.after_event(event),
            final(self)@.valid(),
    {
        proof {
            use_type_invariant(&*self);
        }
        match event {
            Event::Quit => {
                self.is_running = false;
            },
            Event::KeyDown(Key::Escape) => {
                self.is_running = false;
            },
            Event::KeyDown(Key::Space) => {
                self.is_paused = !self.is_paused;
            },
            _ => {},
        }
    }

    /// Computes one frame in which `dt` milliseconds have passed with `keys`
    /// held. No more than `MAX_STEP_MS` of that time is used. A paused game
    /// is left as it is.
    pub fn update(&mut self, dt: u32, keys: Keys)
        ensures
            final(self)@ == old(self)@.after_update(dt as int, keys),
            final(self)@.valid(),
            PADDLE_MIN <= final(self)@.paddle.y <= PADDLE_MAX,
            old(self)@.paused ==> final(self)@ == old(self)@,
    {
        proof {
            use_type_invariant(&*self);
        }
        if self.is_paused {
            return ;
        }
        let step = clamp_step(dt);
        let paddle_y = move_paddle(self.paddle_pos.y, keys.up, keys.down, step);
        let x = advance_coord(self.ball_pos.x, self.ball_vel.x, step);
        let y = advance_coord(self.ball_pos.y, self.ball_vel.y, step);
        let vx = reflect_x(x, y, self.ball_vel.x, paddle_y);
        let vy = reflect_y(y, self.ball_vel.y);
        self.paddle_pos = Vector2 { x: self.paddle_pos.x, y: paddle_y };
        self.ball_pos = Vector2 { x, y };
        self.ball_vel = Vector2 { x: vx, y: vy };
    }

    /// Takes a run of events in order.
    pub fn process_input(&mut self, events: &[Event])
        ensures
            final(self)@ == old(self)@.after_events(events@),
            final(self)@.valid(),
    {
        proof {
            use_type_invariant(&*self);
        }
        let ghost start = self@;
        let mut i: usize = 0;
        while i < events.len()
            invariant
                0 <= i <= events.len(),
                self@ == start.after_events(events@.take(i as int)),
                self@.valid(),
            decreases events.len() - i,
        {
            proof {
                assert(events@.take(i + 1).drop_last() =~= events@.take(i as int));
            }
            self.handle_event(events[i]);
            proof {
                use_type_invariant(&*self);
            }
            i += 1;
        }
        proof {
            assert(events@.take(events.len() as int) =~= events@);
        }
    }

    /// Milliseconds that have to pass after the tick `now` before the next
    /// frame is due.
    pub fn frame_wait(&self, now: u32) -> (ms: u32)
        ensures
            ms == self@.wait_at(now as int),
            ms <= FRAME_MS,
    {
        let passed = elapsed(self.ticks, now);
        if passed >= FRAME_MS {
            0
        } else {
            FRAME_MS - passed
        }
    }

    /// Computes the frame at the tick `now` with `keys` held: the time since
    /// the last frame, as far as `MAX_STEP_MS`, goes into the update, and `now`
    /// becomes the tick of the last frame.
    pub fn update_game(&mut self, now: u32, keys: Keys)
        ensures
            final(self)@ == old(self)@.after_tick(now as int, keys),
            final(self)@.valid(),
    {
        proof {
            use_type_invariant(&*self);
        }
        let dt = elapsed(self.ticks, now);
        self.ticks = now;
        self.update(dt, keys);
    }

    /// Lays out what the game shows now.
    pub fn generate_output(&self) -> (scene: Scene)
        ensures
            scene == self@.scene(),
            scene.top_wall.drawable(),
            scene.bottom_wall.drawable(),
            scene.right_wall.drawable(),
            scene.ball.drawable(),
            scene.paddle.drawable(),
    {
        Scene::compose(self.paddle_pos, self.ball_pos)
    }

    /// Keeps events for the next round, behind those that are kept already.
    fn keep(&mut self, events: &[Event])
        ensures
            final(self)@ == (State { pending: old(self)@.pending + events@, ..old(self)@ }),
    {
        proof {
            use_type_invariant(&*self);
        }
        let mut kept: Vec<Event> = Vec::new();
        std::mem::swap(&mut kept, &mut self.pending);
        let mut i: usize = 0;
        while i < events.len()
            invariant
                0 <= i <= events.len(),
                kept@ == old(self)@.pending + events@.take(i as int),
            decreases events.len() - i,
        {
            kept.push(events[i]);
            proof {
                assert(events@.take(i + 1) =~= events@.take(i as int).push(events@[i as int]));
                assert(kept@ =~= old(self)@.pending + events@.take(i + 1));
            }
            i += 1;
        }
        proof {
            assert(events@.take(events.len() as int) =~= events@);
        }
        self.pending = kept;
    }

    /// Tries the frame that is owed at the tick `now`: says how long to wait
    /// while it is not due, and otherwise computes it with `keys` held and
    /// hands out what it shows.
    fn frame(&mut self, now: u32, keys: Keys) -> (action: Action)
        ensures
            final(self)@ == old(self)@.after_frame(now as int, keys),
            action == old(self)@.frame_action(now as int, keys),
            final(self)@.valid(),
    {
        proof {
            use_type_invariant(&*self);
        }
        let wait = self.frame_wait(now);
        if wait > 0 {
            return Action::Wait(wait);
        }
        self.update_game(now, keys);
        proof {
            use_type_invariant(&*self);
        }
        self.frame_owed = false;
        Action::Draw(self.generate_output())
    }

    /// One turn of the game loop at the tick `now`, with the events that have
    /// arrived since the last turn and the keys that are held now. It says
    /// what the loop has to do before the next turn.
    ///
    /// A round of the loop begins with a turn that finds no frame owed. If the
    /// game is not running then, the answer is `Stop` and nothing is taken.
    /// Otherwise the events are taken. A game that is paused after them notes
    /// the tick; the answer is `Stop` if the events have ended it and a wait
    /// of `FRAME_MS` if not. A game that is not paused owes a frame, also
    /// where the events have ended it. The turn tries that frame, and so does
    /// every later turn until the frame is drawn; the events of those later
    /// turns are kept for the next round.
    pub fn advance(&mut self, events: &[Event], now: u32, keys: Keys) -> (action: Action)
        ensures
            final(self)@ == old(self)@.after_turn(events@, now as int, keys),
            action == old(self)@.turn_action(events@, now as int, keys),
            final(self)@.valid(),
    {
        proof {
            use_type_invariant(&*self);
        }
        if self.frame_owed {
            self.keep(events);
            return self.frame(now, keys);
        }
        if !self.is_running {
            return Action::Stop;
        }
        let mut kept: Vec<Event> = Vec::new();
        std::mem::swap(&mut kept, &mut self.pending);
        self.process_input(kept.as_slice());
        self.process_input(events);
        proof {
            use_type_invariant(&*self);
            let began = old(self)@;
            lemma_events_pass_kept_by(began, Seq::empty(), began.pending);
            lemma_events_pass_kept_by(began.after_events(began.pending), Seq::empty(), events@);
            assert(self@ == began.after_intake(events@));
        }
        if self.is_paused {
            self.ticks = now;
            if self.is_running {
                return Action::Wait(FRAME_MS);
            }
            return Action::Stop;
        }
        self.frame_owed = true;
        self.frame(now, keys)
    }
}

} // verus!
