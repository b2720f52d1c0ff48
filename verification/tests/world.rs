use bevy::input::keyboard::KeyCode;
use bevy::input::Input;
use pong::ball::BallBundle;
use pong::body::RigidBody;
use pong::input::KeyState;
use pong::paddle::{PaddleBundle, PaddleSide};
use pong::units::{Vec2, Vec3, UNIT};
use pong::world::{simulate_tick, World, MATCH_PADDLE_SPEED};
use pong::{WINDOW_HEIGHT, WINDOW_WIDTH};

fn keyboard(held: &[KeyCode]) -> Input<KeyCode> {
    let mut keyboard = Input::<KeyCode>::default();
    for key in held {
        keyboard.press(*key);
    }
    keyboard
}

#[test]
fn setup_creates_two_paddles_and_one_ball() {
    let world = World::setup();
    assert!(world.is_wf());
    assert_eq!(
        world.paddles,
        vec![
            PaddleBundle::new(10 * UNIT, PaddleSide::LEFT),
            PaddleBundle::new(10 * UNIT, PaddleSide::RIGHT),
        ]
    );
    assert_eq!(world.ball, BallBundle::new(Vec3 { x: 0, y: 0, z: 0 }, 25 * UNIT));
    assert_eq!(world.paddles[0].translation.x, -487_500_000);
    assert_eq!(world.paddles[1].translation.x, 487_500_000);
    assert_eq!(world.paddles[0].body, RigidBody::Kinematic);
    assert_eq!(world.ball.body, RigidBody::Dynamic);
    assert_eq!(world.ball.velocity, Vec2 { x: 1000 * UNIT, y: 0 });
    assert_eq!(MATCH_PADDLE_SPEED, 10_000_000);
    assert_eq!(WINDOW_WIDTH, 1_000_000_000);
    assert_eq!(WINDOW_HEIGHT, 720_000_000);
}

#[test]
fn a_tick_steers_both_paddles_and_limits_the_ball() {
    let world = World::setup();
    let next = simulate_tick(&keyboard(&[KeyCode::W, KeyCode::Down]), world.clone());
    assert!(next.is_wf());
    assert_eq!(next.paddles[0].velocity, Vec2 { x: 0, y: 10 * UNIT });
    assert_eq!(next.paddles[1].velocity, Vec2 { x: 0, y: -10 * UNIT });
    assert_eq!(next.ball.velocity, Vec2 { x: 400 * UNIT, y: 0 });
    assert_eq!(next.paddles[0].translation, world.paddles[0].translation);
    assert_eq!(next.paddles[1].translation, world.paddles[1].translation);
    assert_eq!(next.paddles[0].paddle, world.paddles[0].paddle);
    assert_eq!(next.paddles[1].paddle, world.paddles[1].paddle);
    assert_eq!(next.ball.translation, world.ball.translation);
}

#[test]
fn a_tick_with_other_keys_held_stops_the_paddles() {
    let mut world = World::setup();
    world.paddles[0].velocity.y = 10 * UNIT;
    world.paddles[1].velocity.y = -10 * UNIT;
    let next = simulate_tick(&keyboard(&[KeyCode::A, KeyCode::Return]), world);
    assert_eq!(next.paddles[0].velocity.y, 0);
    assert_eq!(next.paddles[1].velocity.y, 0);
}

#[test]
fn a_tick_with_all_four_keys_moves_both_paddles_up() {
    let held = keyboard(&[KeyCode::W, KeyCode::S, KeyCode::Up, KeyCode::Down]);
    let next = simulate_tick(&held, World::setup());
    assert_eq!(next.paddles[0].velocity.y, 10 * UNIT);
    assert_eq!(next.paddles[1].velocity.y, 10 * UNIT);
}

#[test]
fn the_last_keys_decide() {
    let up = keyboard(&[KeyCode::W, KeyCode::Up]);
    let down = keyboard(&[KeyCode::S, KeyCode::Down]);
    let world = World::setup();
    let via_up = simulate_tick(&down, simulate_tick(&up, world.clone()));
    let direct = simulate_tick(&down, world.clone());
    assert_eq!(via_up, direct);
    assert_eq!(simulate_tick(&down, direct.clone()), direct);
    assert_eq!(direct.paddles[0].velocity.y, -10 * UNIT);
}

#[test]
fn tick_works_on_a_snapshot() {
    let mut world = World::setup();
    world.ball.velocity = Vec2 { x: -999 * UNIT, y: 12 * UNIT };
    world.tick(&KeyState { w: false, s: true, up: true, down: false });
    assert_eq!(world.paddles[0].velocity.y, -10 * UNIT);
    assert_eq!(world.paddles[1].velocity.y, 10 * UNIT);
    assert_eq!(world.ball.velocity, Vec2 { x: -400 * UNIT, y: 12 * UNIT });
}

#[test]
fn a_slow_ball_passes_a_tick_unchanged() {
    let mut world = World::setup();
    world.ball.velocity = Vec2 { x: 400 * UNIT, y: 800 * UNIT };
    let ball = world.ball;
    world.tick(&KeyState { w: false, s: false, up: false, down: false });
    assert_eq!(world.ball, ball);
}

#[test]
fn is_wf_tells_a_match_from_other_worlds() {
    let start = World::setup();
    assert!(start.is_wf());
    let mut one = start.clone();
    one.paddles.pop();
    assert!(!one.is_wf());
    let mut three = start.clone();
    three.paddles.push(PaddleBundle::new(1, PaddleSide::LEFT));
    assert!(!three.is_wf());
    let mut swapped = start.clone();
    swapped.paddles.swap(0, 1);
    assert!(!swapped.is_wf());
    let mut backwards = start.clone();
    backwards.paddles[1].paddle.speed = -1;
    assert!(!backwards.is_wf());
    let mut still = start.clone();
    still.paddles[0].paddle.speed = 0;
    assert!(still.is_wf());
}

#[test]
fn the_two_halves_of_a_tick_can_be_done_apart_and_in_either_order() {
    let keys = KeyState { w: true, s: false, up: false, down: true };
    let start = World::setup();

    let mut steered = start.clone();
    steered.steer_paddles(&keys);
    assert_eq!(steered.ball, start.ball);
    assert_eq!(steered.paddles[0].velocity.y, 10 * UNIT);
    assert_eq!(steered.paddles[1].velocity.y, -10 * UNIT);

    let mut limited = start.clone();
    limited.limit_ball();
    assert_eq!(limited.paddles, start.paddles);
    assert_eq!(limited.ball.velocity, Vec2 { x: 400 * UNIT, y: 0 });

    steered.limit_ball();
    limited.steer_paddles(&keys);
    assert_eq!(steered, limited);

    let mut ticked = start.clone();
    ticked.tick(&keys);
    assert_eq!(ticked, steered);
}

#[test]
fn the_ball_is_limited_after_the_physics_step_changed_it() {
    let mut world = World::setup();
    world.steer_paddles(&KeyState { w: false, s: false, up: false, down: false });
    world.ball.velocity = Vec2 { x: -650 * UNIT, y: 33 * UNIT };
    world.ball.translation = Vec3 { x: 5 * UNIT, y: -7 * UNIT, z: 0 };
    world.limit_ball();
    assert_eq!(world.ball.velocity, Vec2 { x: -400 * UNIT, y: 33 * UNIT });
    assert_eq!(world.ball.translation, Vec3 { x: 5 * UNIT, y: -7 * UNIT, z: 0 });
}
