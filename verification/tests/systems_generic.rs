use pong::components::Ball;
use pong::components::GameData;
use pong::components::LeftPaddle;
use pong::components::Side;
use pong::components::Transform;
use pong::components::Vector2;
use pong::components::Window;
use pong::config::Config;
use pong::events::BallOutEvent;
use pong::fixed::PIXEL;
use pong::input::key_direction_exec;
use pong::input::Keys;
use pong::state::GameState;
use pong::systems_generic::back_to_menu_system;
use pong::systems_generic::check_ball_out_system;
use pong::systems_generic::move_ball_system;
use pong::systems_generic::move_left_paddle_with_keyboard_system;
use pong::systems_generic::move_paddle;
use pong::systems_generic::paddle_bound_exec;

fn px(pixels: i32) -> i32 {
    pixels * PIXEL
}

fn window() -> Window {
    Window { width: px(768), height: px(576) }
}

fn paddle_at(y: i32) -> Transform {
    Transform { translation: Vector2 { x: px(-360), y }, scale: Vector2 { x: px(16), y: px(64) } }
}

fn ball_at(x: i32, y: i32) -> Transform {
    Transform { translation: Vector2 { x, y }, scale: Vector2 { x: px(16), y: px(16) } }
}

fn keys(s: bool, x: bool) -> Keys {
    Keys { s, x, ..Keys::idle() }
}

fn playing() -> GameData {
    GameData::default()
}

#[test]
fn idle_keys_hold_nothing() {
    let keys = Keys::idle();
    assert!(!keys.s && !keys.x && !keys.p && !keys.l);
    assert!(!keys.space_released && !keys.escape_released);
}

#[test]
fn keys_give_a_direction() {
    assert_eq!(key_direction_exec(false, false), 0);
    assert_eq!(key_direction_exec(true, false), 1);
    assert_eq!(key_direction_exec(false, true), -1);
    assert_eq!(key_direction_exec(true, true), 0);
}

#[test]
fn the_bound_leaves_room_for_wall_and_paddle() {
    // Half of 576, less a wall of 16, less half a paddle of 64.
    assert_eq!(paddle_bound_exec(&window(), &Config::default(), &paddle_at(0)), px(240) as i64);
}

#[test]
fn the_bound_can_be_negative() {
    let small = Window { width: px(768), height: px(40) };
    assert_eq!(paddle_bound_exec(&small, &Config::default(), &paddle_at(0)), px(-28) as i64);
}

#[test]
fn the_left_paddle_goes_up_with_s() {
    let mut transform = paddle_at(0);
    move_left_paddle_with_keyboard_system(
        &LeftPaddle { speed: px(400) },
        &mut transform,
        &keys(true, false),
        &window(),
        16_667,
        &Config::default(),
    );
    // 400 pixels a second for 16667 microseconds: 6.6668 pixels.
    assert_eq!(transform.translation.y, 6_826);
    assert_eq!(transform.translation.x, px(-360));
    assert_eq!(transform.scale, Vector2 { x: px(16), y: px(64) });
}

#[test]
fn the_left_paddle_goes_down_with_x() {
    let mut transform = paddle_at(0);
    move_left_paddle_with_keyboard_system(
        &LeftPaddle { speed: px(400) },
        &mut transform,
        &keys(false, true),
        &window(),
        16_667,
        &Config::default(),
    );
    assert_eq!(transform.translation.y, -6_826);
}

#[test]
fn the_left_paddle_rests_without_keys_and_with_both() {
    let mut transform = paddle_at(px(10));
    move_left_paddle_with_keyboard_system(
        &LeftPaddle { speed: px(400) },
        &mut transform,
        &keys(false, false),
        &window(),
        16_667,
        &Config::default(),
    );
    assert_eq!(transform.translation.y, px(10));
    move_left_paddle_with_keyboard_system(
        &LeftPaddle { speed: px(400) },
        &mut transform,
        &keys(true, true),
        &window(),
        16_667,
        &Config::default(),
    );
    assert_eq!(transform.translation.y, px(10));
}

#[test]
fn the_left_paddle_uses_its_own_speed() {
    let mut transform = paddle_at(0);
    let mut config = Config::default();
    config.game_paddle_speed = px(1);
    move_left_paddle_with_keyboard_system(
        &LeftPaddle { speed: px(100) },
        &mut transform,
        &keys(true, false),
        &window(),
        1_000_000,
        &config,
    );
    assert_eq!(transform.translation.y, px(100));
}

#[test]
fn a_paddle_stops_at_the_upper_bound() {
    let mut transform = paddle_at(px(239));
    move_paddle(&mut transform, 1, px(400), &window(), 16_667, &Config::default());
    assert_eq!(transform.translation.y, px(240));
    move_paddle(&mut transform, 1, px(400), &window(), 16_667, &Config::default());
    assert_eq!(transform.translation.y, px(240));
}

#[test]
fn a_paddle_stops_at_the_lower_bound() {
    let mut transform = paddle_at(px(-239));
    move_paddle(&mut transform, -1, px(400), &window(), 16_667, &Config::default());
    assert_eq!(transform.translation.y, px(-240));
}

#[test]
fn a_paddle_outside_is_brought_back_even_at_rest() {
    let mut transform = paddle_at(px(1000));
    move_paddle(&mut transform, 0, px(400), &window(), 16_667, &Config::default());
    assert_eq!(transform.translation.y, px(240));
    let mut transform = paddle_at(px(-1000));
    move_paddle(&mut transform, 0, px(400), &window(), 0, &Config::default());
    assert_eq!(transform.translation.y, px(-240));
}

#[test]
fn a_negative_bound_puts_the_paddle_at_its_negative() {
    // Brought down to the bound and then up to its negative, as the rule
    // says, the paddle ends at the negative of the bound.
    let small = Window { width: px(768), height: px(40) };
    let mut transform = paddle_at(0);
    move_paddle(&mut transform, 1, px(400), &small, 16_667, &Config::default());
    assert_eq!(transform.translation.y, px(28));
}

#[test]
fn a_long_frame_cannot_push_a_paddle_out() {
    let mut transform = paddle_at(0);
    move_paddle(&mut transform, 1, i32::MAX, &window(), u32::MAX, &Config::default());
    assert_eq!(transform.translation.y, px(240));
    move_paddle(&mut transform, -1, i32::MAX, &window(), u32::MAX, &Config::default());
    assert_eq!(transform.translation.y, px(-240));
}

#[test]
fn the_ball_moves_along_its_velocity() {
    let ball = Ball { speed: px(500), velocity: Vector2 { x: px(300), y: px(-200) } };
    let mut transform = ball_at(px(10), px(20));
    move_ball_system(&ball, &mut transform, 10_000);
    assert_eq!(transform.translation, Vector2 { x: px(13), y: px(18) });
    assert_eq!(transform.scale, Vector2 { x: px(16), y: px(16) });
}

#[test]
fn the_ball_moves_by_the_rounded_distance() {
    let ball = Ball { speed: px(500), velocity: Vector2 { x: 512_000, y: -512_000 } };
    let mut transform = ball_at(0, 0);
    move_ball_system(&ball, &mut transform, 16_667);
    assert_eq!(transform.translation, Vector2 { x: 8_533, y: -8_533 });
}

#[test]
fn a_ball_at_rest_stays() {
    let ball = Ball { speed: px(500), velocity: Vector2::zero() };
    let mut transform = ball_at(px(10), px(20));
    move_ball_system(&ball, &mut transform, 1_000_000);
    assert_eq!(transform, ball_at(px(10), px(20)));
}

#[test]
fn a_ball_moving_along_one_axis_moves() {
    let ball = Ball { speed: px(500), velocity: Vector2 { x: 0, y: px(100) } };
    let mut transform = ball_at(px(10), px(20));
    move_ball_system(&ball, &mut transform, 1_000_000);
    assert_eq!(transform.translation, Vector2 { x: px(10), y: px(120) });
}

#[test]
fn the_ball_does_not_leave_the_range_of_coordinates() {
    let ball = Ball { speed: i32::MAX, velocity: Vector2 { x: i32::MAX, y: i32::MIN } };
    let mut transform = ball_at(0, 0);
    move_ball_system(&ball, &mut transform, u32::MAX);
    assert_eq!(transform.translation, Vector2 { x: i32::MAX, y: i32::MIN });
    move_ball_system(&ball, &mut transform, u32::MAX);
    assert_eq!(transform.translation, Vector2 { x: i32::MAX, y: i32::MIN });
}

#[test]
fn a_ball_inside_the_margin_is_not_out() {
    let mut events: Vec<BallOutEvent> = Vec::new();
    for x in [0, px(384), px(-384), px(584), px(-584)] {
        check_ball_out_system(&mut events, &ball_at(x, 0), &window(), &Config::default(), &playing());
    }
    assert!(events.is_empty());
}

#[test]
fn a_ball_behind_the_left_line_is_out_on_the_left() {
    let mut events: Vec<BallOutEvent> = Vec::new();
    check_ball_out_system(
        &mut events,
        &ball_at(px(-584) - 1, px(33)),
        &window(),
        &Config::default(),
        &playing(),
    );
    assert_eq!(events, vec![BallOutEvent(Side::Left)]);
}

#[test]
fn a_ball_behind_the_right_line_is_out_on_the_right() {
    let mut events: Vec<BallOutEvent> = Vec::new();
    check_ball_out_system(
        &mut events,
        &ball_at(px(584) + 1, px(-33)),
        &window(),
        &Config::default(),
        &playing(),
    );
    assert_eq!(events, vec![BallOutEvent(Side::Right)]);
}

#[test]
fn a_ball_that_is_out_is_added_to_the_list() {
    let mut events: Vec<BallOutEvent> = vec![BallOutEvent(Side::Right)];
    check_ball_out_system(
        &mut events,
        &ball_at(i32::MIN, 0),
        &window(),
        &Config::default(),
        &playing(),
    );
    assert_eq!(events, vec![BallOutEvent(Side::Right), BallOutEvent(Side::Left)]);
}

#[test]
fn no_ball_is_out_once_the_game_is_over() {
    let mut events: Vec<BallOutEvent> = Vec::new();
    let over = GameData { game_over: Some(Side::Left), ..GameData::default() };
    check_ball_out_system(&mut events, &ball_at(i32::MIN, 0), &window(), &Config::default(), &over);
    check_ball_out_system(&mut events, &ball_at(i32::MAX, 0), &window(), &Config::default(), &over);
    assert!(events.is_empty());
}

#[test]
fn with_lines_that_changed_places_the_left_line_is_looked_at_first() {
    let mut config = Config::default();
    config.game_ball_oob_x = px(-1000);
    let mut events: Vec<BallOutEvent> = Vec::new();
    check_ball_out_system(&mut events, &ball_at(0, 0), &window(), &config, &playing());
    assert_eq!(events, vec![BallOutEvent(Side::Left)]);
}

#[test]
fn ball_out_takes_the_widest_arguments() {
    let wide = Window { width: i32::MIN, height: 0 };
    let mut config = Config::default();
    config.game_ball_oob_x = i32::MIN;
    let mut events: Vec<BallOutEvent> = Vec::new();
    // The left line lies at 2^30 + 2^31, the right line at -2^30 - 2^31.
    check_ball_out_system(&mut events, &ball_at(i32::MAX, 0), &wide, &config, &playing());
    assert_eq!(events, vec![BallOutEvent(Side::Left)]);
}

#[test]
fn escape_leads_back_to_the_menu() {
    let mut keys = Keys::idle();
    keys.escape_released = true;
    assert_eq!(back_to_menu_system(GameState::Mode1P, &keys), GameState::Menu);
    assert_eq!(back_to_menu_system(GameState::Mode2P, &keys), GameState::Menu);
    assert_eq!(back_to_menu_system(GameState::ModeWall, &keys), GameState::Menu);
    assert_eq!(back_to_menu_system(GameState::Menu, &keys), GameState::Menu);
}

#[test]
fn without_escape_the_screen_stays() {
    let mut keys = Keys::idle();
    keys.space_released = true;
    keys.s = true;
    assert_eq!(back_to_menu_system(GameState::Mode1P, &keys), GameState::Mode1P);
    assert_eq!(back_to_menu_system(GameState::Mode2P, &keys), GameState::Mode2P);
    assert_eq!(back_to_menu_system(GameState::ModeWall, &keys), GameState::ModeWall);
}

#[test]
fn the_program_starts_in_the_menu() {
    assert_eq!(GameState::default(), GameState::Menu);
}
