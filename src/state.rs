//! The game's state machine and the events that drive it.
use vstd::prelude::*;
use crate::config::{SPEED_SCALE, VEL_FLAP};
use crate::kinematics::Velocity;

verus! {

/// Which group of systems runs: the menu's or the game's.
#[derive(Clone, Copy, Debug, PartialEq, Eq, Hash, Structural)]
pub enum GameState {
    Menu,
    Playing,
}

impl Default for GameState {
    fn default() -> (r: GameState)
        ensures
            r == GameState::Menu,
    {
        GameState::Menu
    }
}

/// A request to give the bird an upward impulse.
#[derive(Clone, Copy, Debug, PartialEq, Eq, Structural)]
pub struct FlapEvent;

/// A request to start a round from the menu.
#[derive(Clone, Copy, Debug, PartialEq, Eq, Structural)]
pub struct GameStartEvent;

/// The bird collided: the round is over.
#[derive(Clone, Copy, Debug, PartialEq, Eq, Structural)]
pub struct GameOverEvent;

/// State after `n` start requests: the menu turns into a round; any other
/// state is kept.
pub open spec fn on_start(s: GameState, n: nat) -> GameState {
    if n > 0 && s == GameState::Menu {
        GameState::Playing
    } else {
        s
    }
}

/// State after `n` game-over events: a round turns back into the menu; any
/// other state is kept.
pub open spec fn on_game_over(s: GameState, n: nat) -> GameState {
    if n > 0 && s == GameState::Playing {
        GameState::Menu
    } else {
        s
    }
}

/// The events of one input sample: one when the key was just pressed.
pub fn events_for<E: Copy>(pressed: bool, event: E) -> (r: Vec<E>)
    ensures
        r@ == if pressed {
            seq![event]
        } else {
            Seq::<E>::empty()
        },
{
    let mut r: Vec<E> = Vec::new();
    if pressed {
        r.push(event);
    }
    r
}

/// Takes the start requests of this frame.
pub fn start(state: &mut GameState, events: &[GameStartEvent])
    ensures
        *final(state) == on_start(*old(state), events@.len()),
{
    if events.len() > 0 && *state == GameState::Menu {
        *state = GameState::Playing;
    }
}

/// Takes the game-over events of this frame.
pub fn game_over(state: &mut GameState, events: &[GameOverEvent])
    ensures
        *final(state) == on_game_over(*old(state), events@.len()),
{
    if events.len() > 0 && *state == GameState::Playing {
        *state = GameState::Menu;
    }
}

/// Applies the flap requests of this frame to the bird's velocity.
pub fn flap(velocity: &mut Velocity, events: &[FlapEvent])
    ensures
        final(velocity).0.x == old(velocity).0.x,
        final(velocity).0.y == if events@.len() > 0 {
            VEL_FLAP * SPEED_SCALE
        } else {
            old(velocity).0.y as int
        },
{
    if events.len() > 0 {
        velocity.0.y = VEL_FLAP * SPEED_SCALE;
    }
}

/// Any number of game-over events in one frame make exactly one
/// transition: a round goes back to the menu as with a single event, and
/// the events of a later frame change nothing more.
pub proof fn game_over_idempotent(s: GameState, n: nat, m: nat)
    requires
        n > 0,
    ensures
        on_game_over(s, n) == on_game_over(s, 1),
        s == GameState::Playing ==> on_game_over(s, n) == GameState::Menu,
        on_game_over(on_game_over(s, n), m) == on_game_over(s, n),
{
}

} // verus!
