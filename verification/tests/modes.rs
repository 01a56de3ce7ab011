use pong::collision::Collision;
use pong::components::Ball;
use pong::components::GameData;
use pong::components::LeftPaddle;
use pong::components::LeftPaddleEntity;
use pong::components::RightPaddle;
use pong::components::RightPaddleEntity;
use pong::components::Side;
use pong::components::Transform;
use pong::components::Vector2;
use pong::components::Window;
use pong::config::Config;
use pong::events::BallHitPaddleEvent;
use pong::events::BallOutEvent;
use pong::events::GameOverEvent;
use pong::fixed::PIXEL;
use pong::input::Keys;
use pong::mode_1p::move_right_paddle_with_ai;
use pong::mode_1p::move_right_paddle_with_ai_system;
use pong::mode_1p::Mode1PPlugin;
use pong::mode_2p::move_right_paddle_with_keyboard_system;
use pong::mode_2p::Mode2PPlugin;
use pong::state::GameState;
use pong::systems_1v1::Banner;
use pong::systems_1v1::Verdict;
use pong::systems_generic::Hit;
use pong::world::run_move_systems;
use pong::world::run_rule_systems;
use pong::world::setup_world;
use pong::world::World;

const FRAME: u32 = 16_667;

fn px(pixels: i32) -> i32 {
    pixels * PIXEL
}

fn window() -> Window {
    Window { width: px(768), height: px(576) }
}

fn rect(x: i32, y: i32, width: i32, height: i32) -> Transform {
    Transform {
        translation: Vector2 { x: px(x), y: px(y) },
        scale: Vector2 { x: px(width), y: px(height) },
    }
}

fn ai_paddle() -> RightPaddle {
    RightPaddle { velocity: Vector2 { x: 5, y: 7 }, speed: px(1) }
}

fn coming(x: i32, y: i32) -> (Ball, Transform) {
    (Ball { speed: px(500), velocity: Vector2 { x: px(400), y: px(300) } }, rect(x, y, 16, 16))
}

fn space() -> Keys {
    Keys { space_released: true, ..Keys::idle() }
}

/// A playfield with the ball in play at `(x, y)` pixels.
fn in_play(x: i32, y: i32, vx: i32, vy: i32) -> World {
    World {
        window: window(),
        config: Config::default(),
        game_data: GameData::default(),
        top_wall: rect(0, 280, 768, 16),
        bottom_wall: rect(0, -280, 768, 16),
        ball: Ball { speed: px(500), velocity: Vector2 { x: px(vx), y: px(vy) } },
        ball_transform: rect(x, y, 16, 16),
        left: LeftPaddleEntity {
            paddle: LeftPaddle { speed: px(400) },
            transform: rect(-360, 0, 16, 64),
            service: false,
        },
        right: RightPaddleEntity {
            paddle: RightPaddle { velocity: Vector2::zero(), speed: px(400) },
            transform: rect(360, 0, 16, 64),
            service: false,
        },
    }
}

fn sound(world: &World) -> bool {
    let v = world.ball.velocity;
    let speed = world.ball.speed as i64;
    (v.x as i64) * (v.x as i64) + (v.y as i64) * (v.y as i64) <= speed * speed
        && world.config.game_ball_speed_min <= world.ball.speed
        && world.ball.speed <= world.config.game_ball_speed_max
        && !(world.left.service && world.right.service)
        && world.left.transform.translation.y.abs() <= px(240)
        && world.right.transform.translation.y.abs() <= px(240)
}

#[test]
fn the_computer_follows_a_ball_above() {
    let mut paddle = ai_paddle();
    let mut transform = rect(360, 0, 16, 64);
    let (ball, ball_transform) = coming(0, 10);
    move_right_paddle_with_ai(
        &mut paddle,
        &mut transform,
        &ball,
        &ball_transform,
        &window(),
        FRAME,
        &Config::default(),
        0,
    );
    // At the configured paddle speed, not at the paddle's own.
    assert_eq!(transform, Transform { translation: Vector2 { x: px(360), y: 6_826 }, ..rect(360, 0, 16, 64) });
    assert_eq!(paddle, ai_paddle());
}

#[test]
fn the_computer_follows_a_ball_below() {
    let mut paddle = ai_paddle();
    let mut transform = rect(360, 0, 16, 64);
    let (ball, ball_transform) = coming(0, -10);
    move_right_paddle_with_ai(
        &mut paddle,
        &mut transform,
        &ball,
        &ball_transform,
        &window(),
        FRAME,
        &Config::default(),
        0,
    );
    assert_eq!(transform.translation.y, -6_826);
}

#[test]
fn the_computer_rests_inside_its_slack() {
    let mut paddle = ai_paddle();
    let mut transform = rect(360, 0, 16, 64);
    let (ball, ball_transform) = coming(0, 10);
    // A draw of 31 gives the widest slack, 32 pixels.
    move_right_paddle_with_ai(
        &mut paddle,
        &mut transform,
        &ball,
        &ball_transform,
        &window(),
        FRAME,
        &Config::default(),
        31,
    );
    assert_eq!(transform, rect(360, 0, 16, 64));
    assert_eq!(paddle.velocity, Vector2 { x: 5, y: 0 });
    assert_eq!(paddle.speed, px(1));
}

#[test]
fn the_slack_runs_from_one_pixel_to_half_the_paddle() {
    let (ball, ball_transform) = coming(0, 10);
    let mut draw: u32 = 0;
    while draw < 64 {
        let mut paddle = ai_paddle();
        let mut transform = rect(360, 0, 16, 64);
        move_right_paddle_with_ai(
            &mut paddle,
            &mut transform,
            &ball,
            &ball_transform,
            &window(),
            FRAME,
            &Config::default(),
            draw,
        );
        // The ball is 10 pixels off: the paddle moves while the slack is at
        // most 10 pixels.
        let slack = (draw % 32 + 1) as i32;
        assert_eq!(transform.translation.y != 0, slack <= 10);
        draw += 1;
    }
}

#[test]
fn a_ball_at_the_slack_is_followed() {
    let mut paddle = ai_paddle();
    let mut transform = rect(360, 0, 16, 64);
    let (ball, mut ball_transform) = coming(0, 0);
    ball_transform.translation.y = px(-5);
    move_right_paddle_with_ai(
        &mut paddle,
        &mut transform,
        &ball,
        &ball_transform,
        &window(),
        FRAME,
        &Config::default(),
        4,
    );
    assert_eq!(transform.translation.y, -6_826);
    let mut transform = rect(360, 0, 16, 64);
    ball_transform.translation.y = px(-5) + 1;
    move_right_paddle_with_ai(
        &mut paddle,
        &mut transform,
        &ball,
        &ball_transform,
        &window(),
        FRAME,
        &Config::default(),
        4,
    );
    assert_eq!(transform.translation.y, 0);
}

#[test]
fn the_computer_ignores_a_ball_that_goes_away() {
    let mut paddle = ai_paddle();
    let mut transform = rect(360, 0, 16, 64);
    let (mut ball, ball_transform) = coming(0, 200);
    ball.velocity.x = px(-400);
    move_right_paddle_with_ai(
        &mut paddle,
        &mut transform,
        &ball,
        &ball_transform,
        &window(),
        FRAME,
        &Config::default(),
        0,
    );
    assert_eq!(transform, rect(360, 0, 16, 64));
    assert_eq!(paddle.velocity.y, 0);
    ball.velocity.x = 0;
    move_right_paddle_with_ai(
        &mut paddle,
        &mut transform,
        &ball,
        &ball_transform,
        &window(),
        FRAME,
        &Config::default(),
        0,
    );
    assert_eq!(transform, rect(360, 0, 16, 64));
}

#[test]
fn the_computer_ignores_a_ball_beyond_the_edge() {
    let mut paddle = ai_paddle();
    let mut transform = rect(360, 0, 16, 64);
    let (ball, mut ball_transform) = coming(384, 200);
    ball_transform.translation.x += 1;
    move_right_paddle_with_ai(
        &mut paddle,
        &mut transform,
        &ball,
        &ball_transform,
        &window(),
        FRAME,
        &Config::default(),
        0,
    );
    assert_eq!(transform, rect(360, 0, 16, 64));
    assert_eq!(paddle.velocity.y, 0);
    // On the edge itself the ball is still followed.
    ball_transform.translation.x -= 1;
    move_right_paddle_with_ai(
        &mut paddle,
        &mut transform,
        &ball,
        &ball_transform,
        &window(),
        FRAME,
        &Config::default(),
        0,
    );
    assert_eq!(transform.translation.y, 6_826);
}

#[test]
fn the_computer_stays_inside_the_playfield() {
    let mut paddle = ai_paddle();
    let mut transform = rect(360, 239, 16, 64);
    let (ball, ball_transform) = coming(0, 270);
    move_right_paddle_with_ai(
        &mut paddle,
        &mut transform,
        &ball,
        &ball_transform,
        &window(),
        FRAME,
        &Config::default(),
        0,
    );
    assert_eq!(transform.translation.y, px(240));
}

#[test]
fn the_computer_by_chance_moves_or_rests() {
    let (ball, ball_transform) = coming(0, 16);
    let mut moved = 0;
    let mut rested = 0;
    let mut round = 0;
    while round < 400 {
        let mut paddle = ai_paddle();
        let mut transform = rect(360, 0, 16, 64);
        move_right_paddle_with_ai_system(
            &mut paddle,
            &mut transform,
            &ball,
            &ball_transform,
            &window(),
            FRAME,
            &Config::default(),
        );
        if transform.translation.y == 6_826 {
            moved += 1;
        } else {
            assert_eq!(transform.translation.y, 0);
            assert_eq!(paddle.velocity.y, 0);
            rested += 1;
        }
        round += 1;
    }
    // The ball is 16 pixels off, in the middle of the range of the slack.
    assert!(moved > 0 && rested > 0);
}

#[test]
fn the_computer_by_chance_ignores_a_ball_that_goes_away() {
    let (mut ball, ball_transform) = coming(0, 200);
    ball.velocity.x = -1;
    let mut paddle = ai_paddle();
    let mut transform = rect(360, 0, 16, 64);
    move_right_paddle_with_ai_system(
        &mut paddle,
        &mut transform,
        &ball,
        &ball_transform,
        &window(),
        FRAME,
        &Config::default(),
    );
    assert_eq!(transform, rect(360, 0, 16, 64));
    assert_eq!(paddle.velocity, Vector2 { x: 5, y: 0 });
}

#[test]
fn the_right_paddle_goes_up_with_p_and_down_with_l() {
    let paddle = RightPaddle { velocity: Vector2::zero(), speed: px(400) };
    let mut transform = rect(360, 0, 16, 64);
    let up = Keys { p: true, s: false, x: true, ..Keys::idle() };
    move_right_paddle_with_keyboard_system(
        &paddle,
        &mut transform,
        &up,
        &window(),
        FRAME,
        &Config::default(),
    );
    assert_eq!(transform.translation, Vector2 { x: px(360), y: 6_826 });
    let down = Keys { l: true, s: true, ..Keys::idle() };
    move_right_paddle_with_keyboard_system(
        &paddle,
        &mut transform,
        &down,
        &window(),
        FRAME,
        &Config::default(),
    );
    move_right_paddle_with_keyboard_system(
        &paddle,
        &mut transform,
        &down,
        &window(),
        FRAME,
        &Config::default(),
    );
    assert_eq!(transform.translation, Vector2 { x: px(360), y: -6_826 });
    let both = Keys { p: true, l: true, ..Keys::idle() };
    move_right_paddle_with_keyboard_system(
        &paddle,
        &mut transform,
        &both,
        &window(),
        FRAME,
        &Config::default(),
    );
    assert_eq!(transform.translation.y, -6_826);
}

#[test]
fn the_right_paddle_stops_at_the_bound() {
    let paddle = RightPaddle { velocity: Vector2::zero(), speed: px(400) };
    let mut transform = rect(360, -239, 16, 64);
    let down = Keys { l: true, ..Keys::idle() };
    move_right_paddle_with_keyboard_system(
        &paddle,
        &mut transform,
        &down,
        &window(),
        FRAME,
        &Config::default(),
    );
    assert_eq!(transform.translation.y, px(-240));
}

#[test]
fn a_new_game_is_laid_out() {
    let (world, net) = setup_world(window(), Config::default());
    assert_eq!(net.len(), 11);
    assert_eq!(world.window, window());
    assert_eq!(world.config, Config::default());
    assert_eq!(world.game_data.left_score, 0);
    assert_eq!(world.game_data.right_score, 0);
    assert_eq!(world.game_data.game_over, None);
    assert_eq!(world.top_wall, rect(0, 280, 768, 16));
    assert_eq!(world.bottom_wall, rect(0, -280, 768, 16));
    assert_eq!(world.ball, Ball { speed: px(500), velocity: Vector2::zero() });
    assert_eq!(world.ball_transform, rect(0, 0, 16, 16));
    assert_eq!(world.left.transform, rect(-360, 0, 16, 64));
    assert_eq!(world.right.transform, rect(360, 0, 16, 64));
    assert_eq!(world.left.paddle, LeftPaddle { speed: px(400) });
    assert_eq!(world.right.paddle, RightPaddle { velocity: Vector2::zero(), speed: px(400) });
    assert_eq!(world.left.service, world.game_data.starting_side == Side::Left);
    assert_eq!(world.right.service, world.game_data.starting_side == Side::Right);
    assert!(sound(&world));
}

#[test]
fn both_games_between_two_sides_start_alike() {
    let (one, _) = Mode1PPlugin::enter(window(), Config::default());
    let (two, _) = Mode2PPlugin::enter(window(), Config::default());
    let (mut plain, _) = setup_world(window(), Config::default());
    for world in [one, two] {
        plain.game_data.starting_side = world.game_data.starting_side;
        plain.left.service = world.left.service;
        plain.right.service = world.right.service;
        assert_eq!(world, plain);
    }
}

#[test]
fn the_first_half_of_a_frame_holds_the_ball_at_the_paddle() {
    let mut world = in_play(0, 0, 0, 0);
    world.left.service = true;
    world.left.transform.translation.y = px(50);
    let launched = run_move_systems(&mut world, &Keys::idle(), FRAME);
    assert!(!launched);
    assert_eq!(world.ball_transform, rect(-342, 50, 16, 16));
    assert_eq!(world.ball.velocity, Vector2::zero());
    assert!(world.left.service);
}

#[test]
fn the_first_half_of_a_frame_serves_and_moves() {
    let mut world = in_play(0, 0, 0, 0);
    world.right.service = true;
    let keys = Keys { s: true, ..space() };
    let launched = run_move_systems(&mut world, &keys, FRAME);
    assert!(launched);
    assert!(!world.right.service && !world.left.service);
    assert_eq!(world.ball.velocity.x, -496_712);
    assert!(world.ball.velocity.y == 124_178 || world.ball.velocity.y == -124_178);
    // The ball was held at the right paddle and has moved for one frame.
    // 496712 units a second for 16667 microseconds: 8278 units.
    assert_eq!(world.ball_transform.translation.x, px(342) - 8_278);
    assert_eq!(world.ball_transform.translation.y.abs(), 2_069);
    assert_eq!(world.left.transform.translation.y, 6_826);
    assert_eq!(world.right.transform, rect(360, 0, 16, 64));
}

#[test]
fn the_second_half_of_a_frame_resolves_a_collision() {
    let mut world = in_play(350, 0, 500, 0);
    let frame = run_rule_systems(&mut world, &Keys::idle(), GameState::Mode2P, false);
    assert_eq!(frame.hit, Some(Hit { index: 3, side: Collision::Left }));
    assert_eq!(frame.ball_hit_paddle, vec![BallHitPaddleEvent()]);
    assert!(frame.ball_out.is_empty());
    assert!(frame.game_over.is_empty());
    assert_eq!(frame.banner, None);
    assert_eq!(frame.state, GameState::Mode2P);
    assert!(!frame.launched);
    assert_eq!(world.ball, Ball { speed: px(505), velocity: Vector2 { x: px(-500), y: 0 } });
    assert_eq!(world.ball_transform, rect(344, 0, 16, 16));
}

#[test]
fn the_second_half_of_a_frame_looks_at_the_walls_first() {
    // The ball overlaps the upper wall and the left paddle.
    let mut world = in_play(-350, 268, -300, 400);
    world.left.transform.translation.y = px(240);
    let frame = run_rule_systems(&mut world, &Keys::idle(), GameState::Mode2P, true);
    assert_eq!(frame.hit, Some(Hit { index: 0, side: Collision::Top }));
    assert!(frame.ball_hit_paddle.is_empty());
    assert!(frame.launched);
    assert_eq!(world.ball.velocity, Vector2 { x: px(-300), y: px(-400) });
}

#[test]
fn the_second_half_of_a_frame_gives_the_point_and_ends_the_rally() {
    let mut world = in_play(-585, 100, -500, 0);
    world.left.transform.translation.y = px(77);
    world.right.transform.translation.y = px(-77);
    world.game_data.left_score = 2;
    let frame = run_rule_systems(&mut world, &Keys::idle(), GameState::Mode1P, false);
    assert_eq!(frame.hit, None);
    assert_eq!(frame.ball_out, vec![BallOutEvent(Side::Left)]);
    assert!(frame.game_over.is_empty());
    assert_eq!(frame.banner, None);
    assert_eq!(world.game_data.left_score, 2);
    assert_eq!(world.game_data.right_score, 1);
    assert_eq!(world.game_data.game_over, None);
    assert_eq!(world.ball.velocity, Vector2::zero());
    assert!(world.right.service && !world.left.service);
    assert_eq!(world.left.transform, rect(-360, 0, 16, 64));
    assert_eq!(world.right.transform, rect(360, 0, 16, 64));
}

#[test]
fn the_second_half_of_a_frame_ends_the_game() {
    let mut world = in_play(585, 100, 500, 0);
    world.game_data.left_score = 8;
    world.game_data.right_score = 8;
    let keys = Keys { escape_released: true, ..Keys::idle() };
    let frame = run_rule_systems(&mut world, &keys, GameState::Mode1P, false);
    assert_eq!(frame.ball_out, vec![BallOutEvent(Side::Right)]);
    assert_eq!(frame.game_over, vec![GameOverEvent(Side::Left)]);
    assert_eq!(frame.banner, Some(Banner { left: Verdict::Win, right: Verdict::Lose }));
    assert_eq!(frame.state, GameState::Menu);
    assert_eq!(world.game_data.left_score, 9);
    assert_eq!(world.game_data.right_score, 8);
    assert_eq!(world.game_data.game_over, Some(Side::Left));
    // The ball flies on and nobody serves.
    assert_eq!(world.ball.velocity, Vector2 { x: px(500), y: 0 });
    assert!(!world.left.service && !world.right.service);
}

#[test]
fn after_the_end_a_frame_changes_no_score() {
    let mut world = in_play(585, 100, 500, 0);
    world.game_data.left_score = 9;
    world.game_data.game_over = Some(Side::Left);
    world.left.service = true;
    let before = world.game_data;
    let mut round = 0;
    while round < 10 {
        let frame = Mode2PPlugin::update(&mut world, &space(), FRAME);
        assert!(!frame.launched);
        assert!(frame.ball_out.is_empty());
        assert!(frame.game_over.is_empty());
        assert_eq!(frame.banner, None);
        assert_eq!(world.game_data, before);
        assert!(world.left.service);
        round += 1;
    }
}

#[test]
fn two_idle_players_lose_to_the_side_that_starts() {
    let (mut world, _) = Mode2PPlugin::enter(window(), Config::default());
    let first = world.game_data.starting_side;
    let mut announced = 0;
    let mut frames = 0;
    while world.game_data.game_over.is_none() && frames < 100_000 {
        let speed = world.ball.speed;
        let frame = Mode2PPlugin::update(&mut world, &space(), FRAME);
        assert!(sound(&world));
        assert!(world.ball.speed >= speed);
        assert_eq!(frame.state, GameState::Mode2P);
        announced += frame.game_over.len();
        frames += 1;
    }
    // Every serve flies past the paddle across the net, so the side that
    // serves first takes every point.
    assert_eq!(world.game_data.game_over, Some(first));
    assert_eq!(announced, 1);
    match first {
        Side::Left => {
            assert_eq!(world.game_data.left_score, 9);
            assert_eq!(world.game_data.right_score, 0);
        },
        Side::Right => {
            assert_eq!(world.game_data.left_score, 0);
            assert_eq!(world.game_data.right_score, 9);
        },
    }
    assert_eq!(world.ball.speed, px(500));
}

#[test]
fn a_game_against_the_computer_stays_sound() {
    let (mut world, _) = Mode1PPlugin::enter(window(), Config::default());
    let mut announced = 0;
    let mut frames = 0;
    while frames < 20_000 {
        let speed = world.ball.speed;
        let score = world.game_data.left_score + world.game_data.right_score;
        let over = world.game_data.game_over;
        // The player follows the ball, always a little late.
        let ball_y = world.ball_transform.translation.y;
        let paddle_y = world.left.transform.translation.y;
        let keys = Keys {
            s: ball_y > paddle_y + px(20),
            x: ball_y < paddle_y - px(20),
            ..space()
        };
        let frame = Mode1PPlugin::update(&mut world, &keys, FRAME);
        assert!(sound(&world));
        assert!(world.ball.speed >= speed);
        assert_eq!(frame.state, GameState::Mode1P);
        let scored = world.game_data.left_score + world.game_data.right_score;
        assert_eq!(scored, score + frame.ball_out.len() as u32);
        assert!(frame.ball_out.len() <= 1);
        if over.is_some() {
            assert_eq!(world.game_data.game_over, over);
            assert!(frame.ball_out.is_empty() && frame.game_over.is_empty() && !frame.launched);
        }
        if !frame.ball_hit_paddle.is_empty() {
            assert!(frame.hit.map(|h| h.index >= 2).unwrap_or(false));
        }
        announced += frame.game_over.len();
        frames += 1;
    }
    match world.game_data.game_over {
        None => {
            assert_eq!(announced, 0);
            assert!(world.game_data.left_score < 9 && world.game_data.right_score < 9);
        },
        Some(Side::Left) => {
            assert_eq!(announced, 1);
            assert_eq!(world.game_data.left_score, 9);
            assert!(world.game_data.right_score < 9);
        },
        Some(Side::Right) => {
            assert_eq!(announced, 1);
            assert_eq!(world.game_data.right_score, 9);
            assert!(world.game_data.left_score < 9);
        },
    }
}
