//! The whole simulation: its entities, its state, its random source, and
//! one tick of the menu's or of the game's systems.
use vstd::prelude::*;
use crate::collision::{check_collision, game_over_events};
use crate::config::{GRAVITY, PIPES, PIPE_Y_SPAN, SPEED_SCALE, VEL, VEL_BG, VEL_FLAP};
use crate::kinematics::{
    can_step, stepped, update_position, update_velocity, Acceleration, Vector, Velocity,
};
use crate::random::{draw_below, seeded};
use crate::recycle::{
    can_jump, in_band, jumped, loop_background, loop_pipes, pipe_height_of, wrapped, Background,
    Layer, LoopSetting, Pipe, PipePair,
};
use crate::spacing::{grid_is_spaced, pipe_respacing, recycled, shift_keeps_spacing, shifted, spaced};
use crate::state::{
    events_for, flap, game_over, on_game_over, on_start, start, FlapEvent, GameStartEvent,
    GameState,
};

verus! {

/// Height at which the bird spawns: half the ground's height.
pub const BIRD_START_Y: i64 = 56_000_000_000_000;

/// Horizontal position of the first pipe pair at the start of a round: the
/// background's width.
pub const PIPE_START_X: i64 = 288_000_000_000_000;

/// Distance between neighbouring pipe pairs, in position units.
pub const PIPE_SPACING: i64 = 150_000_000_000_000;

/// A pipe pair is recycled once it is past the left edge by half its width:
/// `-(W_BG + W_PIPE) / 2` world units.
pub const PIPE_THRESHOLD: i64 = -170_000_000_000_000;

/// A recycled pipe pair jumps forward by the span of the pool:
/// `PIPES * DISTANCE` world units.
pub const PIPE_JUMP: i64 = 450_000_000_000_000;

/// The background wraps back to the centre once it is half its width to
/// the left.
pub const BG_THRESHOLD: i64 = -144_000_000_000_000;
pub const BG_OFFSET: i64 = 144_000_000_000_000;

/// Height of the ground strip's centre: `-(H_BG - H_BASE) / 2` world units.
pub const GROUND_Y: i64 = -200_000_000_000_000;

/// The ground wraps back to the centre once it has moved by the difference
/// of its width and the background's: `(W_BG - W_BASE) / 2` world units.
pub const GROUND_THRESHOLD: i64 = -24_000_000_000_000;

/// The bird: the one entity under gravity and under the player's control.
#[derive(Clone, Copy, Debug, PartialEq, Eq, Structural)]
pub struct Bird {
    pub position: Vector,
    pub velocity: Velocity,
    pub acceleration: Acceleration,
}

/// The simulation's entities, its state and its random source.
pub struct World {
    pub state: GameState,
    pub bird: Bird,
    pub background: Layer,
    pub ground: Layer,
    pub pipes: Vec<Pipe>,
    pub rng: rand::rngs::StdRng,
}

/// The recycling rule of every pipe pair.
pub open spec fn pipe_rule() -> LoopSetting {
    LoopSetting { threshold: PIPE_THRESHOLD, offset: PIPE_JUMP }
}

/// The bird stands at its spawn point with its spawn velocity.
pub open spec fn at_spawn(b: Bird) -> bool {
    &&& b.position.x == 0
    &&& b.position.y == BIRD_START_Y
    &&& b.velocity.0.x == 0
    &&& b.velocity.0.y == VEL_FLAP * SPEED_SCALE
}

/// Pipe pair `i` stands at its place at the start of a round.
pub open spec fn respaced(pipes: Seq<Pipe>, i: int) -> bool {
    pipes[i].position.x == PIPE_START_X + i * PIPE_SPACING
}

/// Horizontal positions of the pipe pairs.
pub open spec fn pipe_xs(pipes: Seq<Pipe>) -> Seq<int> {
    pipes.map_values(|p: Pipe| p.position.x as int)
}

/// `next` is the layer `l` after one tick of `dt`: moved, then wrapped.
pub open spec fn layer_scrolled(l: Layer, next: Layer, dt: int) -> bool {
    &&& next.position.x == wrapped(stepped(l.position.x as int, l.velocity.0.x as int, dt), l.setting.0)
    &&& next.position.y == stepped(l.position.y as int, l.velocity.0.y as int, dt)
    &&& next.velocity == l.velocity
    &&& next.setting == l.setting
}

/// `next` is the pipe pair `p` after one tick of `dt`: moved, then recycled
/// to a random height in the band if it passed its threshold.
pub open spec fn pipe_scrolled(p: Pipe, next: Pipe, dt: int) -> bool {
    let x = stepped(p.position.x as int, p.velocity.0.x as int, dt);
    &&& next.position.x == jumped(x, p.setting.0)
    &&& x < p.setting.0.threshold ==> in_band(next.position.y as int)
    &&& x >= p.setting.0.threshold ==> next.position.y == stepped(
        p.position.y as int,
        p.velocity.0.y as int,
        dt,
    )
    &&& next.velocity == p.velocity
    &&& next.setting == p.setting
}

/// Every pipe pair can move by one step of `dt`.
pub open spec fn pipes_can_step(pipes: Seq<Pipe>, dt: int) -> bool {
    forall|i: int| 0 <= i < pipes.len() ==> can_step(#[trigger] pipes[i].position, pipes[i].velocity.0, dt)
}

/// Whether `p + rate * dt` is representable in both components.
fn can_step_exec(p: &Vector, rate: &Vector, dt: i64) -> (r: bool)
    ensures
        r == can_step(*p, *rate, dt as int),
{
    let lo = i64::MIN as i128;
    let hi = i64::MAX as i128;
    let (px, py, rx, ry, t) = (p.x as i128, p.y as i128, rate.x as i128, rate.y as i128, dt as i128);
    proof {
        assert(-0x4000_0000_0000_0000_0000_0000_0000_0000 <= rx * t <= 0x4000_0000_0000_0000_0000_0000_0000_0000)
            by (nonlinear_arith)
            requires
                -0x8000_0000_0000_0000 <= rx <= 0x7fff_ffff_ffff_ffff,
                -0x8000_0000_0000_0000 <= t <= 0x7fff_ffff_ffff_ffff,
        ;
        assert(-0x4000_0000_0000_0000_0000_0000_0000_0000 <= ry * t <= 0x4000_0000_0000_0000_0000_0000_0000_0000)
            by (nonlinear_arith)
            requires
                -0x8000_0000_0000_0000 <= ry <= 0x7fff_ffff_ffff_ffff,
                -0x8000_0000_0000_0000 <= t <= 0x7fff_ffff_ffff_ffff,
        ;
    }
    let x = px + rx * t;
    let y = py + ry * t;
    lo <= x && x <= hi && lo <= y && y <= hi
}

/// Moves every pipe pair by its velocity.
fn scroll_pipes(pipes: &mut Vec<Pipe>, dt: i64)
    requires
        pipes_can_step(old(pipes)@, dt as int),
    ensures
        final(pipes).len() == old(pipes).len(),
        forall|i: int|
            0 <= i < final(pipes).len() ==> {
                let (p, q) = (old(pipes)[i], #[trigger] final(pipes)[i]);
                &&& q.position.x == stepped(p.position.x as int, p.velocity.0.x as int, dt as int)
                &&& q.position.y == stepped(p.position.y as int, p.velocity.0.y as int, dt as int)
                &&& q.velocity == p.velocity
                &&& q.setting == p.setting
            },
{
    let n = pipes.len();
    let mut i: usize = 0;
    while i < n
        invariant
            0 <= i <= n,
            n == pipes.len(),
            n == old(pipes).len(),
            pipes_can_step(old(pipes)@, dt as int),
            forall|j: int| i <= j < n ==> #[trigger] pipes[j] == old(pipes)[j],
            forall|j: int|
                0 <= j < i ==> {
                    let (p, q) = (old(pipes)[j], #[trigger] pipes[j]);
                    &&& q.position.x == stepped(p.position.x as int, p.velocity.0.x as int, dt as int)
                    &&& q.position.y == stepped(p.position.y as int, p.velocity.0.y as int, dt as int)
                    &&& q.velocity == p.velocity
                    &&& q.setting == p.setting
                },
        decreases n - i,
    {
        let mut pipe = pipes[i];
        assert(can_step(old(pipes)[i as int].position, old(pipes)[i as int].velocity.0, dt as int));
        update_position(&mut pipe.position, &pipe.velocity, dt);
        pipes.set(i, pipe);
        i = i + 1;
    }
}

impl World {
    /// The world's invariant: a fixed pool of pipe pairs, all under the
    /// pipe recycling rule, all moving alike, and spaced evenly.
    pub open spec fn wf(&self) -> bool {
        &&& self.pipes.len() == PIPES
        &&& forall|i: int| 0 <= i < self.pipes.len() ==> (#[trigger] self.pipes[i]).setting.0 == pipe_rule()
        &&& forall|i: int| 0 <= i < self.pipes.len() ==> (#[trigger] self.pipes[i]).velocity == self.pipes[0].velocity
        &&& spaced(pipe_xs(self.pipes@), PIPE_SPACING as int)
    }

    /// Every entity can take one step of `dt` without leaving the range of
    /// positions and velocities that the world can represent.
    pub open spec fn can_advance(&self, dt: int) -> bool {
        &&& can_step(self.bird.position, self.bird.velocity.0, dt)
        &&& can_step(self.bird.velocity.0, self.bird.acceleration.0, dt)
        &&& can_step(self.background.position, self.background.velocity.0, dt)
        &&& can_step(self.ground.position, self.ground.velocity.0, dt)
        &&& pipes_can_step(self.pipes@, dt)
    }

    /// `next` is this world after one tick of the game's systems: every
    /// entity moved, the bird accelerated, layers and pipe pairs recycled,
    /// a flap applied if requested, and the round ended on a collision.
    pub open spec fn played(&self, next: &World, dt: int, flapped: bool) -> bool {
        let (b, nb) = (self.bird, next.bird);
        &&& nb.position.x == stepped(b.position.x as int, b.velocity.0.x as int, dt)
        &&& nb.position.y == stepped(b.position.y as int, b.velocity.0.y as int, dt)
        &&& nb.velocity.0.x == stepped(b.velocity.0.x as int, b.acceleration.0.x as int, dt)
        &&& nb.velocity.0.y == if flapped {
            VEL_FLAP * SPEED_SCALE
        } else {
            stepped(b.velocity.0.y as int, b.acceleration.0.y as int, dt)
        }
        &&& nb.acceleration == b.acceleration
        &&& layer_scrolled(self.background, next.background, dt)
        &&& layer_scrolled(self.ground, next.ground, dt)
        &&& next.pipes.len() == self.pipes.len()
        &&& forall|i: int|
            0 <= i < self.pipes.len() ==> pipe_scrolled(self.pipes[i], #[trigger] next.pipes[i], dt)
        &&& next.state == on_game_over(self.state, game_over_events(nb.position, next.pipes@))
    }

    /// `next` is this world after one tick of the menu's systems: with a
    /// start request the bird goes back to its spawn point, the pipe pairs
    /// are spaced again from the right edge and the round starts; without
    /// one nothing changes.
    pub open spec fn menu_stepped(&self, next: &World, pressed: bool) -> bool {
        &&& !pressed ==> next.state == self.state && next.bird == self.bird && next.pipes@ == self.pipes@
        &&& pressed ==> {
            &&& next.state == on_start(self.state, 1)
            &&& at_spawn(next.bird)
            &&& forall|i: int| 0 <= i < self.pipes.len() ==> #[trigger] respaced(next.pipes@, i)
        }
        &&& next.bird.acceleration == self.bird.acceleration
        &&& next.background == self.background
        &&& next.ground == self.ground
        &&& next.pipes.len() == self.pipes.len()
        &&& forall|i: int|
            0 <= i < self.pipes.len() ==> {
                let (p, q) = (self.pipes[i], #[trigger] next.pipes[i]);
                &&& q.position.y == p.position.y
                &&& q.velocity == p.velocity
                &&& q.setting == p.setting
            }
    }

    /// Builds the world in the menu: the bird at its spawn point, the
    /// background and ground in place, and the pipe pairs spaced from the
    /// right edge at random heights drawn from a generator seeded by `seed`.
    pub fn new(seed: u64) -> (w: World)
        ensures
            w.wf(),
            w.state == GameState::Menu,
            at_spawn(w.bird),
            w.bird.acceleration.0.x == 0,
            w.bird.acceleration.0.y == GRAVITY,
            w.background.position.x == 0 && w.background.position.y == 0,
            w.background.velocity.0.x == VEL_BG * SPEED_SCALE && w.background.velocity.0.y == 0,
            w.background.setting.0.threshold == BG_THRESHOLD,
            w.background.setting.0.offset == BG_OFFSET,
            w.ground.position.x == 0 && w.ground.position.y == GROUND_Y,
            w.ground.velocity.0.x == VEL * SPEED_SCALE && w.ground.velocity.0.y == 0,
            w.ground.setting.0.threshold == GROUND_THRESHOLD,
            w.ground.setting.0.offset == 0,
            forall|i: int|
                0 <= i < w.pipes.len() ==> {
                    &&& respaced(w.pipes@, i)
                    &&& in_band((#[trigger] w.pipes[i]).position.y as int)
                    &&& w.pipes[i].velocity.0.x == VEL * SPEED_SCALE
                    &&& w.pipes[i].velocity.0.y == 0
                },
    {
        let mut rng = seeded(seed);
        let pipe_velocity = Velocity(Vector::new(VEL * SPEED_SCALE, 0));
        let mut pipes: Vec<Pipe> = Vec::new();
        let mut x: i64 = PIPE_START_X;
        let mut i: usize = 0;
        while i < PIPES
            invariant
                i <= PIPES,
                pipes.len() == i,
                x == PIPE_START_X + i * PIPE_SPACING,
                pipe_velocity.0.x == VEL * SPEED_SCALE && pipe_velocity.0.y == 0,
                forall|j: int|
                    0 <= j < i ==> {
                        &&& respaced(pipes@, j)
                        &&& in_band((#[trigger] pipes[j]).position.y as int)
                        &&& pipes[j].velocity == pipe_velocity
                        &&& pipes[j].setting.0 == pipe_rule()
                    },
            decreases PIPES - i,
        {
            let drawn = draw_below(&mut rng, PIPE_Y_SPAN);
            let y = pipe_height_of(drawn);
            pipes.push(
                Pipe {
                    position: Vector::new(x, y),
                    velocity: pipe_velocity,
                    setting: PipePair(LoopSetting::new(PIPE_THRESHOLD, PIPE_JUMP)),
                },
            );
            assert(in_band(y as int)) by {
                assert(0 <= drawn < PIPE_Y_SPAN && y == crate::recycle::pipe_height(drawn as int));
            }
            assert(respaced(pipes@, i as int));
            x = x + PIPE_SPACING;
            i = i + 1;
        }
        proof {
            assert forall|j: int| 0 <= j < pipe_xs(pipes@).len() implies #[trigger] pipe_xs(pipes@)[j] == PIPE_START_X + j
                * PIPE_SPACING by {
                assert(respaced(pipes@, j));
            }
            grid_is_spaced(pipe_xs(pipes@), PIPE_START_X as int, PIPE_SPACING as int);
        }
        World {
            state: GameState::Menu,
            bird: Bird {
                position: Vector::new(0, BIRD_START_Y),
                velocity: Velocity(Vector::new(0, VEL_FLAP * SPEED_SCALE)),
                acceleration: Acceleration(Vector::new(0, GRAVITY)),
            },
            background: Layer {
                position: Vector::new(0, 0),
                velocity: Velocity(Vector::new(VEL_BG * SPEED_SCALE, 0)),
                setting: Background(LoopSetting::new(BG_THRESHOLD, BG_OFFSET)),
            },
            ground: Layer {
                position: Vector::new(0, GROUND_Y),
                velocity: Velocity(Vector::new(VEL * SPEED_SCALE, 0)),
                setting: Background(LoopSetting::new(GROUND_THRESHOLD, 0)),
            },
            pipes,
            rng,
        }
    }

    /// On a start request, puts the bird back at its spawn point with its
    /// spawn velocity.
    pub fn reset_bird(&mut self, events: &[GameStartEvent])
        ensures
            events@.len() > 0 ==> at_spawn(final(self).bird),
            events@.len() == 0 ==> final(self).bird == old(self).bird,
            final(self).bird.acceleration == old(self).bird.acceleration,
            final(self).state == old(self).state,
            final(self).background == old(self).background,
            final(self).ground == old(self).ground,
            final(self).pipes@ == old(self).pipes@,
    {
        if events.len() > 0 {
            self.bird.position = Vector::new(0, BIRD_START_Y);
            self.bird.velocity = Velocity(Vector::new(0, VEL_FLAP * SPEED_SCALE));
        }
    }

    /// On a start request, spaces the pipe pairs again from the right edge,
    /// keeping their heights.
    pub fn reset_pipes(&mut self, events: &[GameStartEvent])
        requires
            old(self).pipes.len() == PIPES,
        ensures
            final(self).pipes.len() == old(self).pipes.len(),
            events@.len() > 0 ==> forall|i: int| 0 <= i < PIPES ==> #[trigger] respaced(final(self).pipes@, i),
            forall|i: int|
                0 <= i < PIPES ==> {
                    let (p, q) = (old(self).pipes[i], #[trigger] final(self).pipes[i]);
                    &&& events@.len() == 0 ==> q == p
                    &&& q.position.y == p.position.y
                    &&& q.velocity == p.velocity
                    &&& q.setting == p.setting
                },
            final(self).state == old(self).state,
            final(self).bird == old(self).bird,
            final(self).background == old(self).background,
            final(self).ground == old(self).ground,
    {
        if events.len() > 0 {
            let mut x: i64 = PIPE_START_X;
            let mut i: usize = 0;
            while i < PIPES
                invariant
                    i <= PIPES,
                    self.pipes.len() == PIPES,
                    x == PIPE_START_X + i * PIPE_SPACING,
                    self.state == old(self).state,
                    self.bird == old(self).bird,
                    self.background == old(self).background,
                    self.ground == old(self).ground,
                    forall|j: int| i <= j < PIPES ==> #[trigger] self.pipes[j] == old(self).pipes[j],
                    forall|j: int|
                        0 <= j < i ==> {
                            let (p, q) = (old(self).pipes[j], #[trigger] self.pipes[j]);
                            &&& respaced(self.pipes@, j)
                            &&& q.position.y == p.position.y
                            &&& q.velocity == p.velocity
                            &&& q.setting == p.setting
                        },
                decreases PIPES - i,
            {
                let mut pipe = self.pipes[i];
                pipe.position.x = x;
                self.pipes.set(i, pipe);
                x = x + PIPE_SPACING;
                i = i + 1;
            }
        }
    }

    /// One tick of the menu's systems: a start request resets the bird and
    /// the pipe pairs, then starts the round.
    pub fn menu_tick(&mut self, start_pressed: bool)
        requires
            old(self).wf(),
        ensures
            final(self).wf(),
            old(self).menu_stepped(final(self), start_pressed),
    {
        let events = events_for(start_pressed, GameStartEvent);
        self.reset_bird(events.as_slice());
        self.reset_pipes(events.as_slice());
        start(&mut self.state, events.as_slice());
        proof {
            if !start_pressed {
                assert(self.pipes@ =~= old(self).pipes@);
            } else {
                let xs = pipe_xs(self.pipes@);
                assert forall|j: int| 0 <= j < xs.len() implies #[trigger] xs[j] == PIPE_START_X + j * PIPE_SPACING by {
                    assert(respaced(self.pipes@, j));
                }
                grid_is_spaced(xs, PIPE_START_X as int, PIPE_SPACING as int);
            }
        }
    }

    /// Whether every entity can take one step of `dt`.
    pub fn can_advance_exec(&self, dt: i64) -> (r: bool)
        ensures
            r == self.can_advance(dt as int),
    {
        if !can_step_exec(&self.bird.position, &self.bird.velocity.0, dt) || !can_step_exec(
            &self.bird.velocity.0,
            &self.bird.acceleration.0,
            dt,
        ) || !can_step_exec(&self.background.position, &self.background.velocity.0, dt)
            || !can_step_exec(&self.ground.position, &self.ground.velocity.0, dt) {
            return false;
        }
        let mut i: usize = 0;
        while i < self.pipes.len()
            invariant
                0 <= i <= self.pipes.len(),
                forall|j: int|
                    0 <= j < i ==> can_step(#[trigger] self.pipes[j].position, self.pipes[j].velocity.0, dt as int),
            decreases self.pipes.len() - i,
        {
            if !can_step_exec(&self.pipes[i].position, &self.pipes[i].velocity.0, dt) {
                return false;
            }
            i = i + 1;
        }
        true
    }

    /// One tick of the game's systems, `dt` microseconds long. Where some
    /// entity would leave the representable range the world is left as it
    /// is and `false` returned.
    pub fn playing_tick(&mut self, dt: i64, flap_pressed: bool) -> (advanced: bool)
        requires
            old(self).wf(),
        ensures
            final(self).wf(),
            advanced == old(self).can_advance(dt as int),
            advanced ==> old(self).played(final(self), dt as int, flap_pressed),
            !advanced ==> *final(self) == *old(self),
    {
        if !self.can_advance_exec(dt) {
            return false;
        }
        let flaps = events_for(flap_pressed, FlapEvent);
        update_position(&mut self.bird.position, &self.bird.velocity, dt);
        update_position(&mut self.background.position, &self.background.velocity, dt);
        update_position(&mut self.ground.position, &self.ground.velocity, dt);
        let ghost xs0 = pipe_xs(self.pipes@);
        let ghost shift = self.pipes[0].velocity.0.x * dt;
        scroll_pipes(&mut self.pipes, dt);
        proof {
            assert(pipe_xs(self.pipes@) =~= shifted(xs0, shift));
            shift_keeps_spacing(xs0, PIPE_SPACING as int, shift);
        }
        let ghost xs1 = pipe_xs(self.pipes@);
        update_velocity(&mut self.bird.velocity, &self.bird.acceleration, dt);
        loop_background(&mut self.background);
        loop_background(&mut self.ground);
        assert(forall|i: int| 0 <= i < self.pipes.len() ==> can_jump(#[trigger] self.pipes[i]));
        loop_pipes(&mut self.pipes, &mut self.rng);
        proof {
            assert(pipe_xs(self.pipes@) =~= recycled(xs1, PIPE_THRESHOLD as int, PIPE_JUMP as int));
            assert(xs1.len() * PIPE_SPACING == PIPE_JUMP);
            pipe_respacing(xs1, PIPE_SPACING as int, PIPE_THRESHOLD as int);
        }
        flap(&mut self.bird.velocity, flaps.as_slice());
        let overs = check_collision(&self.bird.position, &self.pipes);
        game_over(&mut self.state, overs.as_slice());
        true
    }

    /// One tick of whichever group of systems the state selects, with the
    /// key's state for this frame. Returns `false` where a tick of the game
    /// could not be taken (see `playing_tick`).
    pub fn tick(&mut self, dt: i64, pressed: bool) -> (advanced: bool)
        requires
            old(self).wf(),
        ensures
            final(self).wf(),
            old(self).state == GameState::Menu ==> advanced && old(self).menu_stepped(final(self), pressed),
            old(self).state == GameState::Playing ==> advanced == old(self).can_advance(dt as int),
            old(self).state == GameState::Playing && advanced ==> old(self).played(final(self), dt as int, pressed),
            !advanced ==> *final(self) == *old(self),
    {
        match self.state {
            GameState::Menu => {
                self.menu_tick(pressed);
                true
            },
            GameState::Playing => self.playing_tick(dt, pressed),
        }
    }
}

} // verus!
