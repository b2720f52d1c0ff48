use pong::ball::{
    limit_velocity, Ball, BallBundle, BALL_DEFAULT_SPEED, BALL_MAX_VELOCITY, BALL_RESTITUTION,
    BALL_SERVE_VELOCITY, BALL_SIZE,
};
use pong::body::{CoefficientCombine, Collider, LockedAxes, Restitution, RigidBody};
use pong::units::{Vec2, Vec3, UNIT};

fn limited(x: i64, y: i64) -> Vec2 {
    let mut velocity = Vec2 { x, y };
    limit_velocity(&mut velocity);
    velocity
}

#[test]
fn a_ball_at_one_thousand_is_limited_to_four_hundred() {
    assert_eq!(limited(1000 * UNIT, 37 * UNIT), Vec2 { x: 400_000_000, y: 37_000_000 });
}

#[test]
fn the_limit_itself_is_kept() {
    assert_eq!(limited(400 * UNIT, 1), Vec2 { x: 400 * UNIT, y: 1 });
    assert_eq!(limited(-400 * UNIT, 1), Vec2 { x: -400 * UNIT, y: 1 });
}

#[test]
fn the_least_excess_is_clamped() {
    assert_eq!(limited(400_000_100, -5).x, 400_000_000);
    assert_eq!(limited(400_000_001, -5).x, 400_000_000);
    assert_eq!(limited(-400_000_100, -5).x, -400_000_000);
    assert_eq!(limited(-400_000_001, -5).x, -400_000_000);
}

#[test]
fn a_velocity_within_the_limit_is_unchanged() {
    for x in [0, 1, -1, 399_999_999, -399_999_999, 123 * UNIT, -77 * UNIT] {
        assert_eq!(limited(x, 9 * UNIT), Vec2 { x, y: 9 * UNIT });
    }
}

#[test]
fn a_fast_ball_to_the_left_is_limited_too() {
    assert_eq!(limited(-1000 * UNIT, 0), Vec2 { x: -400 * UNIT, y: 0 });
    assert_eq!(limited(i64::MIN, i64::MIN), Vec2 { x: -400 * UNIT, y: i64::MIN });
    assert_eq!(limited(i64::MAX, i64::MAX), Vec2 { x: 400 * UNIT, y: i64::MAX });
}

#[test]
fn the_vertical_velocity_is_never_limited() {
    assert_eq!(limited(0, 5000 * UNIT).y, 5000 * UNIT);
    assert_eq!(limited(900 * UNIT, -5000 * UNIT).y, -5000 * UNIT);
}

#[test]
fn limiting_twice_is_limiting_once() {
    for x in [1000 * UNIT, -1000 * UNIT, 400 * UNIT, 3] {
        let once = limited(x, 2);
        assert_eq!(limited(once.x, once.y), once);
    }
}

#[test]
fn a_new_ball_is_served_to_the_right() {
    let position = Vec3 { x: 1, y: 2, z: 3 };
    let bundle = BallBundle::new(position, 25 * UNIT);
    assert_eq!(bundle.ball, Ball { speed: 50_000_000 });
    assert_eq!(bundle.translation, position);
    assert_eq!(bundle.body, RigidBody::Dynamic);
    assert_eq!(bundle.collider, Collider { width: 25_000_000, height: 25_000_000 });
    assert_eq!(bundle.velocity, Vec2 { x: 1_000_000_000, y: 0 });
    assert_eq!(
        bundle.restitution,
        Restitution { coefficient: 3_000_000, combine_rule: CoefficientCombine::Max }
    );
    assert_eq!(
        bundle.axes,
        LockedAxes { translation_x: false, translation_y: false, rotation: true }
    );
    assert_eq!(bundle.axes, LockedAxes::rotation_locked());
}

#[test]
fn limiting_a_bundle_changes_its_horizontal_velocity_only() {
    let mut bundle = BallBundle::new(Vec3 { x: 4, y: 5, z: 6 }, 7);
    bundle.velocity.y = -3;
    let before = bundle;
    bundle.limit_velocity();
    assert_eq!(bundle.velocity, Vec2 { x: 400 * UNIT, y: -3 });
    bundle.velocity = before.velocity;
    assert_eq!(bundle, before);
}

#[test]
fn ball_constants() {
    assert_eq!(BALL_SIZE, 25_000_000);
    assert_eq!(BALL_DEFAULT_SPEED, 50_000_000);
    assert_eq!(BALL_MAX_VELOCITY, 400_000_000);
    assert_eq!(BALL_SERVE_VELOCITY, 1_000_000_000);
    assert_eq!(BALL_RESTITUTION, 3_000_000);
    assert_eq!(Ball::default(), Ball { speed: BALL_DEFAULT_SPEED });
}
