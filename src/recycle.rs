//! Recycling of entities that scrolled off the left edge: background and
//! ground wrap to a fixed position, pipe pairs jump forward by the span of
//! the whole pool and take a new random height.
use vstd::prelude::*;
use crate::config::{LENGTH_SCALE, PIPE_Y_SPAN, PIPE_Y_TOP};
use crate::kinematics::{fits_i64, Vector, Velocity};
use crate::random::draw_below;

verus! {

/// When an entity's horizontal position drops below `threshold`, it is
/// moved by `offset` (how depends on the kind of entity).
#[derive(Clone, Copy, Debug, PartialEq, Eq, Structural)]
pub struct LoopSetting {
    pub threshold: i64,
    pub offset: i64,
}

impl LoopSetting {
    pub fn new(threshold: i64, offset: i64) -> (r: LoopSetting)
        ensures
            r.threshold == threshold,
            r.offset == offset,
    {
        LoopSetting { threshold, offset }
    }
}

/// Recycling rule of a background or ground layer: wrap to `offset`.
#[derive(Clone, Copy, Debug, PartialEq, Eq, Structural)]
pub struct Background(pub LoopSetting);

/// Recycling rule of a pipe pair: jump forward by `offset`.
#[derive(Clone, Copy, Debug, PartialEq, Eq, Structural)]
pub struct PipePair(pub LoopSetting);

/// A scrolling background or ground strip.
#[derive(Clone, Copy, Debug, PartialEq, Eq, Structural)]
pub struct Layer {
    pub position: Vector,
    pub velocity: Velocity,
    pub setting: Background,
}

/// A pipe pair, positioned at the centre of its gap.
#[derive(Clone, Copy, Debug, PartialEq, Eq, Structural)]
pub struct Pipe {
    pub position: Vector,
    pub velocity: Velocity,
    pub setting: PipePair,
}

/// Horizontal position of a layer after recycling.
pub open spec fn wrapped(x: int, s: LoopSetting) -> int {
    if x < s.threshold {
        s.offset as int
    } else {
        x
    }
}

/// Horizontal position of a pipe pair after recycling.
pub open spec fn jumped(x: int, s: LoopSetting) -> int {
    if x < s.threshold {
        x + s.offset
    } else {
        x
    }
}

/// Recycling the pipe pair leaves its position representable.
pub open spec fn can_jump(p: Pipe) -> bool {
    p.position.x < p.setting.0.threshold ==> fits_i64(p.position.x + p.setting.0.offset)
}

/// Vertical position of a pipe pair's gap for the drawn number `drawn`.
pub open spec fn pipe_height(drawn: int) -> int {
    (PIPE_Y_TOP - drawn) * LENGTH_SCALE
}

/// `y` is one of the heights a pipe pair can be given.
pub open spec fn in_band(y: int) -> bool {
    exists|d: int| 0 <= d < PIPE_Y_SPAN && y == pipe_height(d)
}

/// Wraps a layer that has scrolled past its threshold.
pub fn loop_background(layer: &mut Layer)
    ensures
        final(layer).position.x == wrapped(old(layer).position.x as int, old(layer).setting.0),
        final(layer).position.y == old(layer).position.y,
        final(layer).velocity == old(layer).velocity,
        final(layer).setting == old(layer).setting,
{
    if layer.position.x < layer.setting.0.threshold {
        layer.position.x = layer.setting.0.offset;
    }
}

/// The height of a pipe pair for the drawn number `drawn`.
pub fn pipe_height_of(drawn: u64) -> (y: i64)
    requires
        drawn < PIPE_Y_SPAN,
    ensures
        y == pipe_height(drawn as int),
{
    (PIPE_Y_TOP - drawn as i64) * LENGTH_SCALE
}

/// Recycles one pipe pair, given the number drawn for its new height.
pub fn loop_pipe(pipe: &mut Pipe, drawn: u64)
    requires
        can_jump(*old(pipe)),
        drawn < PIPE_Y_SPAN,
    ensures
        final(pipe).position.x == jumped(old(pipe).position.x as int, old(pipe).setting.0),
        final(pipe).position.y == if old(pipe).position.x < old(pipe).setting.0.threshold {
            pipe_height(drawn as int)
        } else {
            old(pipe).position.y as int
        },
        final(pipe).velocity == old(pipe).velocity,
        final(pipe).setting == old(pipe).setting,
{
    if pipe.position.x < pipe.setting.0.threshold {
        pipe.position.y = pipe_height_of(drawn);
        pipe.position.x = pipe.position.x + pipe.setting.0.offset;
    }
}

/// Recycles every pipe pair past its threshold, drawing its new height
/// from `rng`.
pub fn loop_pipes(pipes: &mut Vec<Pipe>, rng: &mut rand::rngs::StdRng)
    requires
        forall|i: int| 0 <= i < old(pipes).len() ==> can_jump(#[trigger] old(pipes)[i]),
    ensures
        final(pipes).len() == old(pipes).len(),
        forall|i: int|
            0 <= i < final(pipes).len() ==> {
                let (p, q) = (old(pipes)[i], #[trigger] final(pipes)[i]);
                &&& q.position.x == jumped(p.position.x as int, p.setting.0)
                &&& p.position.x < p.setting.0.threshold ==> in_band(q.position.y as int)
                &&& p.position.x >= p.setting.0.threshold ==> q.position.y == p.position.y
                &&& q.velocity == p.velocity
                &&& q.setting == p.setting
            },
{
    let n = pipes.len();
    let mut i: usize = 0;
    while i < n
        invariant
            0 <= i <= n,
            n == pipes.len(),
            n == old(pipes).len(),
            forall|j: int| 0 <= j < n ==> can_jump(#[trigger] old(pipes)[j]),
            forall|j: int| i <= j < n ==> #[trigger] pipes[j] == old(pipes)[j],
            forall|j: int|
                0 <= j < i ==> {
                    let (p, q) = (old(pipes)[j], #[trigger] pipes[j]);
                    &&& q.position.x == jumped(p.position.x as int, p.setting.0)
                    &&& p.position.x < p.setting.0.threshold ==> in_band(q.position.y as int)
                    &&& p.position.x >= p.setting.0.threshold ==> q.position.y == p.position.y
                    &&& q.velocity == p.velocity
                    &&& q.setting == p.setting
                },
        decreases n - i,
    {
        let mut pipe = pipes[i];
        if pipe.position.x < pipe.setting.0.threshold {
            let drawn = draw_below(rng, PIPE_Y_SPAN);
            loop_pipe(&mut pipe, drawn);
            assert(in_band(pipe.position.y as int));
        }
        pipes.set(i, pipe);
        i = i + 1;
    }
}

} // verus!
