use pong::collision::resolve_collision;
use pong::collision::Collision;
use pong::collision::Obstacle;
use pong::components::Ball;
use pong::components::Collider;
use pong::components::GameData;
use pong::components::LeftPaddle;
use pong::components::LeftPaddleEntity;
use pong::components::RightPaddle;
use pong::components::RightPaddleEntity;
use pong::components::Side;
use pong::components::Transform;
use pong::components::Vector2;
use pong::components::Window;
use pong::config::Config;
use pong::events::BallOutEvent;
use pong::events::GameOverEvent;
use pong::fixed::PIXEL;
use pong::input::Keys;
use pong::systems_1v1::check_game_over_system;
use pong::systems_1v1::increment_score_system;
use pong::systems_1v1::launch_ball;
use pong::systems_1v1::launch_velocity_exec;
use pong::systems_generic::check_ball_out_system;
use pong::systems_generic::move_paddle;

fn px(pixels: i32) -> i32 {
    pixels * PIXEL
}

fn window() -> Window {
    Window { width: px(768), height: px(576) }
}

fn rect(x: i32, y: i32, width: i32, height: i32) -> Transform {
    Transform {
        translation: Vector2 { x: px(x), y: px(y) },
        scale: Vector2 { x: px(width), y: px(height) },
    }
}

fn length_squared(v: Vector2) -> i64 {
    (v.x as i64) * (v.x as i64) + (v.y as i64) * (v.y as i64)
}

#[test]
fn the_ball_is_never_faster_than_its_speed() {
    let config = Config::default();
    let paddle = Obstacle { collider: Collider::Paddle, transform: rect(360, 0, 16, 64) };
    let wall = Obstacle { collider: Collider::Wall, transform: rect(0, 280, 768, 16) };
    for speed in [0, 1, 2, 3, 1000, px(500), px(617), px(750)] {
        for side in [Side::Left, Side::Right] {
            for draw in [0, 1] {
                let v = launch_velocity_exec(side, draw, speed);
                assert!(length_squared(v) <= (speed as i64) * (speed as i64));
                // What the front of a paddle returns is as long as the
                // speed before the hit, which the hit then raises.
                let mut offset = -40;
                while offset <= 40 {
                    let mut ball = Ball { speed, velocity: v };
                    let mut transform = rect(350, offset, 16, 16);
                    if !v.is_zero() {
                        resolve_collision(&mut ball, &mut transform, &paddle, &config);
                        assert!(length_squared(ball.velocity) <= (speed as i64) * (speed as i64));
                        assert!(ball.speed >= speed);
                    }
                    offset += 8;
                }
                // A wall keeps the length of the velocity as it is.
                let mut ball = Ball { speed, velocity: v };
                let mut transform = rect(0, 270, 16, 16);
                if !v.is_zero() {
                    resolve_collision(&mut ball, &mut transform, &wall, &config);
                    assert_eq!(length_squared(ball.velocity), length_squared(v));
                }
            }
        }
    }
}

#[test]
fn a_return_is_as_fast_as_the_speed_before_it() {
    let config = Config::default();
    let paddle = Obstacle { collider: Collider::Paddle, transform: rect(360, 0, 16, 64) };
    let mut offset = -39;
    while offset <= 39 {
        let speed = px(500);
        let mut ball = Ball { speed, velocity: Vector2 { x: px(300), y: px(10) } };
        let mut transform = rect(350, offset, 16, 16);
        resolve_collision(&mut ball, &mut transform, &paddle, &config);
        // The direction of the return has a length of 65536 units or more,
        // so the velocity lacks less than one part in 65535 and a unit or
        // two of rounding.
        let length = (length_squared(ball.velocity) as f64).sqrt();
        assert!(length <= speed as f64);
        assert!(length > speed as f64 - 10.0);
        assert!(ball.velocity.x < 0);
        offset += 1;
    }
}

#[test]
fn a_paddle_is_inside_the_playfield_after_every_move() {
    let config = Config::default();
    for start in [i32::MIN, px(-1000), px(-240), -1, 0, 1, px(100), px(240), px(5000), i32::MAX] {
        for direction in [-1, 0, 1] {
            for speed in [i32::MIN, px(-400), 0, 1, px(400), i32::MAX] {
                for dt in [0, 1, 16_667, 1_000_000, u32::MAX] {
                    let mut transform = rect(-360, 0, 16, 64);
                    transform.translation.y = start;
                    move_paddle(&mut transform, direction, speed, &window(), dt, &config);
                    assert!(transform.translation.y >= px(-240));
                    assert!(transform.translation.y <= px(240));
                }
            }
        }
    }
}

#[test]
fn without_a_ball_out_the_score_stays() {
    let config = Config::default();
    for game_over in [None, Some(Side::Left), Some(Side::Right)] {
        let before = GameData { left_score: 9, right_score: 9, starting_side: Side::Right, game_over };
        let mut data = before;
        let mut ball = Ball { speed: px(600), velocity: Vector2 { x: 5, y: 6 } };
        let mut left = LeftPaddleEntity {
            paddle: LeftPaddle { speed: 1 },
            transform: rect(-360, 10, 16, 64),
            service: true,
        };
        let mut right = RightPaddleEntity {
            paddle: RightPaddle { velocity: Vector2::zero(), speed: 2 },
            transform: rect(360, 20, 16, 64),
            service: true,
        };
        let mut announced: Vec<GameOverEvent> = Vec::new();
        let mut round = 0;
        while round < 3 {
            increment_score_system(&Vec::new(), &mut data);
            check_game_over_system(
                &Vec::new(),
                &mut announced,
                &mut ball,
                &mut left,
                &mut right,
                &mut data,
                &config,
            );
            round += 1;
        }
        assert_eq!(data, before);
        assert!(announced.is_empty());
        assert_eq!(ball.velocity, Vector2 { x: 5, y: 6 });
        assert!(left.service && right.service);
        assert_eq!(left.transform, rect(-360, 10, 16, 64));
        assert_eq!(right.transform, rect(360, 20, 16, 64));
    }
}

#[test]
fn the_speed_grows_only_at_the_front_of_a_paddle() {
    let config = Config::default();
    let paddle = Obstacle { collider: Collider::Paddle, transform: rect(360, 0, 16, 64) };
    let wall = Obstacle { collider: Collider::Wall, transform: rect(360, 0, 16, 64) };
    let mut speed = px(500);
    let mut hits = 0;
    while hits < 60 {
        let mut ball = Ball { speed, velocity: Vector2 { x: px(300), y: px(10) } };
        let mut transform = rect(350, 0, 16, 16);
        let side = resolve_collision(&mut ball, &mut transform, &paddle, &config);
        assert_eq!(side, Collision::Left);
        let expected = if speed + px(5) < px(750) { speed + px(5) } else { px(750) };
        assert_eq!(ball.speed, expected);
        // The same hit on a wall, and a hit on an end of the paddle, leave
        // the speed alone.
        let mut other = Ball { speed, velocity: Vector2 { x: px(300), y: px(10) } };
        let mut transform = rect(350, 0, 16, 16);
        resolve_collision(&mut other, &mut transform, &wall, &config);
        assert_eq!(other.speed, speed);
        let mut other = Ball { speed, velocity: Vector2 { x: px(1), y: px(-300) } };
        let mut transform = rect(360, 38, 16, 16);
        let side = resolve_collision(&mut other, &mut transform, &paddle, &config);
        assert_eq!(side, Collision::Bottom);
        assert_eq!(other.speed, speed);
        speed = ball.speed;
        hits += 1;
    }
    assert_eq!(speed, px(750));
}

#[test]
fn a_ball_out_on_one_side_is_a_point_for_the_other() {
    let config = Config::default();
    let playing = GameData { left_score: 3, right_score: 3, ..GameData::default() };
    // Half the width of 384 pixels and the margin of 200.
    let mut events: Vec<BallOutEvent> = Vec::new();
    let mut left_of_line = rect(0, 0, 16, 16);
    left_of_line.translation.x = px(-584) - 1;
    check_ball_out_system(&mut events, &left_of_line, &window(), &config, &playing);
    let mut data = playing;
    increment_score_system(&events, &mut data);
    assert_eq!(data.right_score, 4);
    assert_eq!(data.left_score, 3);

    let mut events: Vec<BallOutEvent> = Vec::new();
    let mut right_of_line = rect(0, 0, 16, 16);
    right_of_line.translation.x = px(584) + 1;
    check_ball_out_system(&mut events, &right_of_line, &window(), &config, &playing);
    let mut data = playing;
    increment_score_system(&events, &mut data);
    assert_eq!(data.left_score, 4);
    assert_eq!(data.right_score, 3);
}

#[test]
fn the_ninth_point_wins_and_nothing_follows() {
    let config = Config::default();
    let mut data = GameData { left_score: 8, right_score: 8, ..GameData::default() };
    let mut ball = Ball { speed: px(600), velocity: Vector2 { x: px(-600), y: 0 } };
    let mut left = LeftPaddleEntity {
        paddle: LeftPaddle { speed: px(400) },
        transform: rect(-360, 10, 16, 64),
        service: false,
    };
    let mut right = RightPaddleEntity {
        paddle: RightPaddle { velocity: Vector2::zero(), speed: px(400) },
        transform: rect(360, 20, 16, 64),
        service: false,
    };
    let mut announced: Vec<GameOverEvent> = Vec::new();
    let out = vec![BallOutEvent(Side::Left)];
    increment_score_system(&out, &mut data);
    check_game_over_system(&out, &mut announced, &mut ball, &mut left, &mut right, &mut data, &config);
    assert_eq!(data.right_score, 9);
    assert_eq!(data.game_over, Some(Side::Right));
    assert_eq!(announced, vec![GameOverEvent(Side::Right)]);

    let over = data;
    for side in [Side::Left, Side::Right] {
        let out = vec![BallOutEvent(side)];
        increment_score_system(&out, &mut data);
        check_game_over_system(&out, &mut announced, &mut ball, &mut left, &mut right, &mut data, &config);
        let mut events: Vec<BallOutEvent> = Vec::new();
        let mut far = rect(0, 0, 16, 16);
        far.translation.x = i32::MIN;
        check_ball_out_system(&mut events, &far, &window(), &config, &data);
        assert!(events.is_empty());
    }
    assert_eq!(data, over);
    assert_eq!(announced.len(), 1);
    left.service = true;
    let keys = Keys { space_released: true, ..Keys::idle() };
    assert!(!launch_ball(&mut ball, &mut left, &mut right, &keys, &data, 0));
    assert_eq!(ball.velocity, Vector2 { x: px(-600), y: 0 });
    assert!(left.service);
}
