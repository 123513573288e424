//! Axis-aligned collision tests of the bird against the ground and the
//! pipe pairs.
use vstd::prelude::*;
use crate::kinematics::Vector;
use crate::recycle::Pipe;
use crate::state::GameOverEvent;

verus! {

/// The floor line: half the playfield's height less the ground's height
/// and half the bird's height (`-(H_BG / 2 - H_BASE - H_BIRD / 2)` world
/// units), in position units.
pub const FLOOR_Y: i64 = -132_000_000_000_000;

/// Horizontal reach at which bird and pipe overlap: half the pipe's width
/// plus half the bird's width (43 world units), in position units.
pub const REACH_X: i64 = 43_000_000_000_000;

/// Vertical room of the bird's centre inside a gap: half the gap less half
/// the bird's height (38 world units), in position units.
pub const CLEARANCE_Y: i64 = 38_000_000_000_000;

/// The bird is at or below the floor line.
pub open spec fn hits_ground(bird: Vector) -> bool {
    bird.y <= FLOOR_Y
}

/// The bird's horizontal extent overlaps the pipe's.
pub open spec fn aligned(bird: Vector, pipe: Vector) -> bool {
    pipe.x - REACH_X < bird.x && bird.x < pipe.x + REACH_X
}

/// The bird's centre lies strictly within the pipe's gap band.
pub open spec fn inside_gap(bird: Vector, pipe: Vector) -> bool {
    pipe.y - CLEARANCE_Y < bird.y && bird.y < pipe.y + CLEARANCE_Y
}

/// The bird strikes the pipe pair at `pipe`.
pub open spec fn strikes(bird: Vector, pipe: Vector) -> bool {
    aligned(bird, pipe) && !inside_gap(bird, pipe)
}

/// Number of pipe pairs among `pipes` that the bird strikes.
pub open spec fn strike_count(bird: Vector, pipes: Seq<Pipe>) -> nat
    decreases pipes.len(),
{
    if pipes.len() == 0 {
        0
    } else {
        strike_count(bird, pipes.drop_last()) + if strikes(bird, pipes.last().position) {
            1nat
        } else {
            0nat
        }
    }
}

/// Number of game-over events one collision check emits: one for the
/// ground, one for each pipe pair struck.
pub open spec fn game_over_events(bird: Vector, pipes: Seq<Pipe>) -> nat {
    (if hits_ground(bird) {
        1nat
    } else {
        0nat
    }) + strike_count(bird, pipes)
}

/// The bird collides with the ground or with some pipe pair.
pub open spec fn collides(bird: Vector, pipes: Seq<Pipe>) -> bool {
    hits_ground(bird) || exists|i: int| 0 <= i < pipes.len() && strikes(bird, #[trigger] pipes[i].position)
}

proof fn lemma_strike_count(bird: Vector, pipes: Seq<Pipe>)
    ensures
        strike_count(bird, pipes) <= pipes.len(),
        (strike_count(bird, pipes) > 0) == exists|i: int|
            0 <= i < pipes.len() && strikes(bird, #[trigger] pipes[i].position),
    decreases pipes.len(),
{
    if pipes.len() > 0 {
        let init = pipes.drop_last();
        lemma_strike_count(bird, init);
        if strike_count(bird, init) > 0 {
            let i = choose|i: int| 0 <= i < init.len() && strikes(bird, #[trigger] init[i].position);
            assert(pipes[i] == init[i]);
        }
        if exists|i: int| 0 <= i < pipes.len() && strikes(bird, #[trigger] pipes[i].position) {
            let i = choose|i: int| 0 <= i < pipes.len() && strikes(bird, #[trigger] pipes[i].position);
            if i < pipes.len() - 1 {
                assert(init[i] == pipes[i]);
            }
        }
    }
}

/// A game-over event is emitted exactly when the bird collides.
pub proof fn events_iff_collision(bird: Vector, pipes: Seq<Pipe>)
    ensures
        (game_over_events(bird, pipes) > 0) == collides(bird, pipes),
{
    lemma_strike_count(bird, pipes);
}

/// Whether the bird strikes the pipe pair at `pipe`.
pub fn strikes_pipe(bird: &Vector, pipe: &Vector) -> (r: bool)
    ensures
        r == strikes(*bird, *pipe),
{
    let (bx, by, px, py) = (bird.x as i128, bird.y as i128, pipe.x as i128, pipe.y as i128);
    let align_with_pipe = px - (REACH_X as i128) < bx && bx < px + (REACH_X as i128);
    let inside_gap = py - (CLEARANCE_Y as i128) < by && by < py + (CLEARANCE_Y as i128);
    align_with_pipe && !inside_gap
}

/// Tests the bird against the ground and every pipe pair, and returns the
/// game-over events emitted: one for the ground, one for each pipe pair
/// struck.
pub fn check_collision(bird: &Vector, pipes: &Vec<Pipe>) -> (events: Vec<GameOverEvent>)
    ensures
        events@.len() == game_over_events(*bird, pipes@),
        (events@.len() > 0) == collides(*bird, pipes@),
{
    let mut events: Vec<GameOverEvent> = Vec::new();
    if bird.y <= FLOOR_Y {
        events.push(GameOverEvent);
    }
    let mut i: usize = 0;
    while i < pipes.len()
        invariant
            0 <= i <= pipes.len(),
            events@.len() == (if hits_ground(*bird) {
                1nat
            } else {
                0nat
            }) + strike_count(*bird, pipes@.subrange(0, i as int)),
        decreases pipes.len() - i,
    {
        proof {
            lemma_strike_count(*bird, pipes@.subrange(0, i as int));
            lemma_strike_count(*bird, pipes@.subrange(0, i as int + 1));
            assert(pipes@.subrange(0, i as int + 1).drop_last() =~= pipes@.subrange(0, i as int));
        }
        if strikes_pipe(bird, &pipes[i].position) {
            events.push(GameOverEvent);
        }
        i = i + 1;
    }
    proof {
        assert(pipes@.subrange(0, pipes.len() as int) =~= pipes@);
        events_iff_collision(*bird, pipes@);
    }
    events
}

/// A bird centred on a pipe pair's gap midline, whose height is less than
/// the gap's, does not strike that pipe pair, aligned with it or not; with
/// the ground clear, a check against that pipe pair emits no event.
pub proof fn pass_through(bird: Vector, pipe: Pipe)
    requires
        bird.y == pipe.position.y,
    ensures
        inside_gap(bird, pipe.position),
        !strikes(bird, pipe.position),
        !hits_ground(bird) ==> game_over_events(bird, seq![pipe]) == 0,
{
    let s = seq![pipe];
    assert(s.drop_last() =~= Seq::<Pipe>::empty());
    assert(strike_count(bird, s.drop_last()) == 0);
    assert(s.last() == pipe);
}

/// A bird aligned with a pipe pair but outside its gap band strikes it,
/// and so collides with any set of pipe pairs that holds it.
pub proof fn pipe_strike(bird: Vector, pipes: Seq<Pipe>, i: int)
    requires
        0 <= i < pipes.len(),
        aligned(bird, pipes[i].position),
        !inside_gap(bird, pipes[i].position),
    ensures
        strikes(bird, pipes[i].position),
        collides(bird, pipes),
        game_over_events(bird, pipes) > 0,
{
    events_iff_collision(bird, pipes);
}

/// A bird at or below the floor line collides, wherever the pipe pairs are.
pub proof fn ground_strike(bird: Vector, pipes: Seq<Pipe>)
    requires
        bird.y <= FLOOR_Y,
    ensures
        collides(bird, pipes),
        game_over_events(bird, pipes) > 0,
{
}

} // verus!
