use flappy::animation::AnimationIndex;
use flappy::collision::{check_collision, strikes_pipe, FLOOR_Y};
use flappy::config::{LENGTH_SCALE, SPEED_SCALE};
use flappy::kinematics::{update_position, update_velocity, Acceleration, Vector, Velocity};
use flappy::recycle::{loop_background, loop_pipe, loop_pipes, Background, Layer, LoopSetting, Pipe, PipePair};
use flappy::state::{events_for, flap, game_over, start, FlapEvent, GameOverEvent, GameStartEvent, GameState};
use flappy::world::{World, BIRD_START_Y, PIPE_JUMP, PIPE_SPACING, PIPE_START_X, PIPE_THRESHOLD};

const L: i64 = LENGTH_SCALE;
const S: i64 = SPEED_SCALE;

fn pipe_at(x: i64, y: i64) -> Pipe {
    Pipe {
        position: Vector::new(x, y),
        velocity: Velocity(Vector::new(-100 * S, 0)),
        setting: PipePair(LoopSetting::new(PIPE_THRESHOLD, PIPE_JUMP)),
    }
}

fn in_band(y: i64) -> bool {
    y % L == 0 && (-43 * L..=156 * L).contains(&y)
}

#[test]
fn position_moves_by_velocity_times_dt() {
    let mut p = Vector::new(10 * L, -3 * L);
    update_position(&mut p, &Velocity(Vector::new(-100 * S, 256 * S)), 15_625);
    assert_eq!(p.x, 10 * L - 1_562_500_000_000);
    assert_eq!(p.y, -3 * L + 4_000_000_000_000);
}

#[test]
fn velocity_changes_by_acceleration_times_dt() {
    let mut v = Velocity(Vector::new(0, 256 * S));
    update_velocity(&mut v, &Acceleration(Vector::new(0, -1024)), 15_625);
    assert_eq!(v.0.x, 0);
    assert_eq!(v.0.y, 256 * S - 16 * S);
}

#[test]
fn integration_matches_closed_form() {
    let (p0, v0, a, dt): (i64, i64, i64, i64) = (5 * L, 256 * S, -1024, 15_625);
    let mut p = Vector::new(0, p0);
    let mut v = Velocity(Vector::new(0, v0));
    let acc = Acceleration(Vector::new(0, a));
    let n: i64 = 40;
    for _ in 0..n {
        update_position(&mut p, &v, dt);
        update_velocity(&mut v, &acc, dt);
    }
    let (p0, v0, a, dt, n) = (p0 as i128, v0 as i128, a as i128, dt as i128, n as i128);
    assert_eq!(v.0.y as i128, v0 + n * a * dt);
    assert_eq!(2 * p.y as i128, 2 * p0 + 2 * v0 * n * dt + a * (n * dt) * (n * dt) - a * n * dt * dt);
    // The explicit scheme stays within a * n * dt^2 / 2 of the exact motion.
    let exact2 = 2 * p0 + 2 * v0 * n * dt + a * (n * dt) * (n * dt);
    assert_eq!((2 * p.y as i128 - exact2).abs(), (a * n * dt * dt).abs());
}

#[test]
fn background_wraps_below_threshold_only() {
    let setting = Background(LoopSetting::new(-144 * L, 144 * L));
    let mut below = Layer { position: Vector::new(-144 * L - 1, 7), velocity: Velocity(Vector::new(-20 * S, 0)), setting };
    loop_background(&mut below);
    assert_eq!(below.position.x, 144 * L);
    assert_eq!(below.position.y, 7);
    let mut at = Layer { position: Vector::new(-144 * L, 7), velocity: Velocity(Vector::new(-20 * S, 0)), setting };
    loop_background(&mut at);
    assert_eq!(at.position.x, -144 * L);
    let mut ground = Layer { position: Vector::new(-25 * L, -200 * L), velocity: Velocity(Vector::new(-100 * S, 0)), setting: Background(LoopSetting::new(-24 * L, 0)) };
    loop_background(&mut ground);
    assert_eq!(ground.position.x, 0);
}

#[test]
fn pipe_jumps_forward_with_drawn_height() {
    let mut p = pipe_at(-171 * L, 3 * L);
    loop_pipe(&mut p, 0);
    assert_eq!(p.position.x, 279 * L);
    assert_eq!(p.position.y, 156 * L);
    let mut q = pipe_at(-171 * L, 3 * L);
    loop_pipe(&mut q, 199);
    assert_eq!(q.position.y, -43 * L);
    let mut r = pipe_at(-170 * L, 3 * L);
    loop_pipe(&mut r, 50);
    assert_eq!(r.position, Vector::new(-170 * L, 3 * L));
}

#[test]
fn pipes_stay_evenly_spaced() {
    let mut world = World::new(42);
    let mut pipes = vec![pipe_at(-100 * L, 0), pipe_at(50 * L, 0), pipe_at(200 * L, 0)];
    for _ in 0..500 {
        for p in pipes.iter_mut() {
            let v = p.velocity;
            update_position(&mut p.position, &v, 15_625);
        }
        loop_pipes(&mut pipes, &mut world.rng);
        let mut xs: Vec<i64> = pipes.iter().map(|p| p.position.x).collect();
        xs.sort();
        assert_eq!(xs[1] - xs[0], PIPE_SPACING);
        assert_eq!(xs[2] - xs[1], PIPE_SPACING);
        assert!(pipes.iter().all(|p| in_band(p.position.y) || p.position.y == 0));
    }
}

#[test]
fn new_world_draws_pipe_heights_in_band() {
    for seed in 0..20 {
        let world = World::new(seed);
        assert_eq!(world.state, GameState::Menu);
        assert_eq!(world.pipes.len(), 3);
        for (i, p) in world.pipes.iter().enumerate() {
            assert_eq!(p.position.x, PIPE_START_X + i as i64 * PIPE_SPACING);
            assert!(in_band(p.position.y));
        }
    }
}

#[test]
fn bird_on_gap_midline_passes() {
    let pipes = vec![pipe_at(0, 20 * L)];
    let bird = Vector::new(0, 20 * L);
    assert!(!strikes_pipe(&bird, &pipes[0].position));
    assert_eq!(check_collision(&bird, &pipes).len(), 0);
}

#[test]
fn bird_outside_gap_strikes_pipe() {
    let pipes = vec![pipe_at(0, 20 * L)];
    assert_eq!(check_collision(&Vector::new(10 * L, 58 * L), &pipes).len(), 1);
    assert_eq!(check_collision(&Vector::new(-42 * L, -18 * L), &pipes).len(), 1);
    assert_eq!(check_collision(&Vector::new(0, 57 * L), &pipes).len(), 0);
    // Not aligned: no strike, whatever the height.
    assert_eq!(check_collision(&Vector::new(43 * L, 100 * L), &pipes).len(), 0);
}

#[test]
fn bird_on_floor_collides() {
    let far = vec![pipe_at(400 * L, 0)];
    assert_eq!(check_collision(&Vector::new(0, FLOOR_Y), &far).len(), 1);
    assert_eq!(check_collision(&Vector::new(0, -500 * L), &Vec::new()).len(), 1);
    assert_eq!(check_collision(&Vector::new(0, FLOOR_Y + 1), &far).len(), 0);
    let near = vec![pipe_at(0, 0), pipe_at(10 * L, 0)];
    assert_eq!(check_collision(&Vector::new(0, FLOOR_Y), &near).len(), 3);
}

#[test]
fn start_request_starts_round_with_reset_entities() {
    let mut world = World::new(3);
    world.bird.position = Vector::new(5 * L, -90 * L);
    world.bird.velocity = Velocity(Vector::new(0, -300 * S));
    world.pipes[0].position.x = -10 * L;
    let heights: Vec<i64> = world.pipes.iter().map(|p| p.position.y).collect();
    assert!(world.tick(15_625, true));
    assert_eq!(world.state, GameState::Playing);
    assert_eq!(world.bird.position, Vector::new(0, BIRD_START_Y));
    assert_eq!(world.bird.velocity, Velocity(Vector::new(0, 256 * S)));
    let xs: Vec<i64> = world.pipes.iter().map(|p| p.position.x).collect();
    assert_eq!(xs, vec![288 * L, 438 * L, 588 * L]);
    let after: Vec<i64> = world.pipes.iter().map(|p| p.position.y).collect();
    assert_eq!(after, heights);
}

#[test]
fn menu_without_request_stays() {
    let mut world = World::new(3);
    assert!(world.tick(15_625, false));
    assert_eq!(world.state, GameState::Menu);
    assert_eq!(world.bird.position, Vector::new(0, BIRD_START_Y));
}

#[test]
fn several_game_overs_make_one_transition() {
    let mut s = GameState::Playing;
    game_over(&mut s, &[GameOverEvent, GameOverEvent, GameOverEvent]);
    assert_eq!(s, GameState::Menu);
    game_over(&mut s, &[GameOverEvent]);
    assert_eq!(s, GameState::Menu);
    let mut world = World::new(9);
    world.state = GameState::Playing;
    world.bird.position = Vector::new(world.pipes[0].position.x, FLOOR_Y - 100 * L);
    world.pipes[1].position.x = world.pipes[0].position.x;
    let bird = world.bird;
    assert!(world.playing_tick(15_625, false));
    assert_eq!(world.state, GameState::Menu);
    // The round ends without resetting the bird.
    assert_eq!(world.bird.position.y, bird.position.y + 4 * L);
}

#[test]
fn state_transitions_only_on_events() {
    let mut s = GameState::default();
    assert_eq!(s, GameState::Menu);
    game_over(&mut s, &[GameOverEvent]);
    assert_eq!(s, GameState::Menu);
    start(&mut s, &[]);
    assert_eq!(s, GameState::Menu);
    start(&mut s, &[GameStartEvent]);
    assert_eq!(s, GameState::Playing);
    start(&mut s, &[GameStartEvent]);
    assert_eq!(s, GameState::Playing);
    game_over(&mut s, &[]);
    assert_eq!(s, GameState::Playing);
}

#[test]
fn flap_sets_vertical_speed() {
    let mut v = Velocity(Vector::new(3, -500 * S));
    flap(&mut v, &events_for(false, FlapEvent));
    assert_eq!(v.0.y, -500 * S);
    flap(&mut v, &events_for(true, FlapEvent));
    assert_eq!(v, Velocity(Vector::new(3, 256 * S)));
}

#[test]
fn playing_tick_moves_and_recycles() {
    let mut world = World::new(11);
    world.tick(15_625, true);
    let before = world.bird;
    assert!(world.tick(15_625, true));
    assert_eq!(world.state, GameState::Playing);
    assert_eq!(world.bird.position.y, before.position.y + 4 * L);
    assert_eq!(world.bird.velocity.0.y, 256 * S);
    assert_eq!(world.pipes[0].position.x, 288 * L - 1_562_500_000_000);
    assert_eq!(world.background.position.x, -312_500_000_000);
    world.pipes[0].position.x = -170 * L;
    world.pipes[1].position.x = -20 * L;
    world.pipes[2].position.x = 130 * L;
    world.bird.position = Vector::new(-300 * L, 0);
    assert!(world.tick(15_625, false));
    assert_eq!(world.pipes[0].position.x, 280 * L - 1_562_500_000_000);
    assert!(in_band(world.pipes[0].position.y));
}

#[test]
fn tick_refuses_to_leave_range() {
    let mut world = World::new(1);
    world.state = GameState::Playing;
    world.bird.position = Vector::new(0, i64::MAX - 1);
    let bird = world.bird;
    assert!(!world.tick(15_625, false));
    assert_eq!(world.bird, bird);
    assert_eq!(world.state, GameState::Playing);
}

#[test]
fn animation_cycles_frames() {
    let a = AnimationIndex::new(0, 3);
    assert_eq!(a.next_frame(0), 1);
    assert_eq!(a.next_frame(1), 2);
    assert_eq!(a.next_frame(2), 0);
    let b = AnimationIndex::new(4, 2);
    assert_eq!(b.next_frame(5), 4);
    assert_eq!(b.next_frame(3), 4);
}
