//! The stages of a game between two sides: the start of a game, the serve,
//! the launch, the score and the end.

use crate::chance::random_u32;
use crate::collision::Obstacle;
use crate::components::serving_side;
use crate::components::serving_side_exec;
use crate::components::Ball;
use crate::components::Collider;
use crate::components::GameData;
use crate::components::LeftPaddle;
use crate::components::LeftPaddleEntity;
use crate::components::RightPaddle;
use crate::components::RightPaddleEntity;
use crate::components::Side;
use crate::components::Transform;
use crate::components::Vector2;
use crate::components::Window;
use crate::config::Config;
use crate::events::BallOutEvent;
use crate::events::GameOverEvent;
use crate::fixed::aim_component;
use crate::fixed::aim_component_exec;
use crate::fixed::half;
use crate::fixed::half_exec;
use crate::fixed::saturate;
use crate::fixed::saturate_i64;
use crate::fixed::PIXEL;
use crate::helpers_sprite::create_ball_sprite;
use crate::helpers_sprite::create_bottom_wall_sprite;
use crate::helpers_sprite::create_left_paddle_sprite;
use crate::helpers_sprite::create_net_sprite;
use crate::helpers_sprite::create_right_paddle_sprite;
use crate::helpers_sprite::create_top_wall_sprite;
use crate::input::Keys;
use vstd::arithmetic::div_mod::lemma_fundamental_div_mod_converse;
use vstd::prelude::*;

verus! {

/// The gap between the paddle that serves and the ball it holds, measured
/// from one paddle width off the paddle's centre.
pub const SERVICE_GAP: i32 = 2 * PIXEL;

/// The run of the direction of a serve.
pub const LAUNCH_RUN: i64 = 0x1_0000;

/// The rise of the direction of a serve: a quarter of its run.
pub const LAUNCH_RISE: i64 = 0x4000;

/// The side that serves first, from a drawn number: left for an even one.
pub open spec fn starting_side_of(draw: u32) -> Side {
    if draw % 2 == 0 {
        Side::Left
    } else {
        Side::Right
    }
}

/// The state at the start of a game: no points, nobody has won, and the
/// drawn number names the side that serves first.
pub open spec fn game_data_at_start(draw: u32) -> GameData {
    GameData { left_score: 0, right_score: 0, starting_side: starting_side_of(draw), game_over: None }
}

/// Starts a game over with a given draw.
pub fn reset_game_data(game_data: &mut GameData, draw: u32)
    ensures
        *final(game_data) == game_data_at_start(draw),
{
    game_data.left_score = 0;
    game_data.right_score = 0;
    game_data.starting_side = if draw % 2 == 0 {
        Side::Left
    } else {
        Side::Right
    };
    game_data.game_over = None;
}

/// Starts a game over: no points, nobody has won, and chance names the side
/// that serves first.
pub fn reset_game_data_system(game_data: &mut GameData)
    ensures
        exists|draw: u32| *final(game_data) == game_data_at_start(draw),
{
    let draw: u32 = random_u32();
    reset_game_data(game_data, draw);
}

/// The court of a game between two sides: a wall above, a wall below, and
/// the dashes of the net, which nothing collides with.
#[derive(Debug)]
pub struct Court {
    pub top_wall: Obstacle,
    pub bottom_wall: Obstacle,
    pub net: Vec<Transform>,
}

/// The distance between two dashes of the net: three units.
pub open spec fn net_step(unit_size: i32) -> int {
    unit_size * 3
}

/// The height of dash `i` of the net: the first is on the middle of the
/// court, and then one above and one below follow in turn, a step further
/// out each time.
pub open spec fn net_height(i: int, unit_size: i32) -> int {
    if i == 0 {
        0
    } else if i % 2 == 1 {
        (i + 1) / 2 * net_step(unit_size)
    } else {
        -(i / 2 * net_step(unit_size))
    }
}

/// How many pairs of dashes the net has beside the dash in the middle: one
/// for every step that stays below half the height of the window.
pub open spec fn net_pairs(window: Window, config: Config) -> int {
    let limit = half(window.height as int);
    if limit > 0 {
        (limit - 1) / net_step(config.sprite_unit_size)
    } else {
        0
    }
}

/// The dashes of the net.
pub open spec fn net_dashes(window: Window, config: Config) -> Seq<Transform> {
    Seq::new(
        (2 * net_pairs(window, config) + 1) as nat,
        |i: int|
            create_net_sprite(
                net_height(i, config.sprite_unit_size) as i32,
                config.sprite_unit_size,
            ),
    )
}

/// Lays out the court: the two walls, and the net with a dash in the middle
/// and a pair of dashes for every step that stays below half the height of
/// the window.
pub fn setup_court_system(window: &Window, config: &Config) -> (court: Court)
    requires
        config.sprite_unit_size > 0,
    ensures
        court.net@ == net_dashes(*window, *config),
        court.top_wall == (Obstacle {
            collider: Collider::Wall,
            transform: create_top_wall_sprite(window.width, window.height, config.sprite_unit_size),
        }),
        court.bottom_wall == (Obstacle {
            collider: Collider::Wall,
            transform: create_bottom_wall_sprite(
                window.width,
                window.height,
                config.sprite_unit_size,
            ),
        }),
{
    let unit: i32 = config.sprite_unit_size;
    let step: i64 = unit as i64 * 3;
    let limit: i64 = half_exec(window.height) as i64;
    let mut net: Vec<Transform> = Vec::new();
    net.push(create_net_sprite(0, unit));
    let mut y: i64 = step;
    let mut pairs: usize = 0;
    while y < limit
        invariant
            unit == config.sprite_unit_size,
            unit > 0,
            step == net_step(unit),
            step >= 3,
            limit == half(window.height as int),
            limit <= 0x4000_0000,
            net.len() == 2 * pairs + 1,
            y == (pairs + 1) * step,
            pairs > 0 ==> pairs * step < limit,
            forall|i: int|
                0 <= i < net.len() ==> #[trigger] net[i] == create_net_sprite(
                    net_height(i, unit) as i32,
                    unit,
                ),
        decreases
                (if y < limit {
                    limit - y
                } else {
                    0
                }),
    {
        assert((pairs + 2) * step == y + step) by (nonlinear_arith)
            requires
                y == (pairs + 1) * step,
        ;
        net.push(create_net_sprite(y as i32, unit));
        net.push(create_net_sprite((-y) as i32, unit));
        pairs = pairs + 1;
        y = y + step;
    }
    proof {
        if limit > 0 {
            assert((pairs + 1) * step == pairs * step + step) by (nonlinear_arith);
            lemma_fundamental_div_mod_converse(
                limit - 1,
                step as int,
                pairs as int,
                limit - 1 - pairs * step,
            );
        }
    }
    Court {
        top_wall: Obstacle {
            collider: Collider::Wall,
            transform: create_top_wall_sprite(window.width, window.height, unit),
        },
        bottom_wall: Obstacle {
            collider: Collider::Wall,
            transform: create_bottom_wall_sprite(window.width, window.height, unit),
        },
        net,
    }
}

/// The left paddle at the start of a game. It holds the ball if its side
/// serves first.
pub fn setup_left_paddle_system(window: &Window, config: &Config, game_data: &GameData) -> (entity:
    LeftPaddleEntity)
    ensures
        entity.transform == create_left_paddle_sprite(window.width, config.sprite_unit_size),
        entity.paddle.speed == config.game_paddle_speed,
        entity.service == (game_data.starting_side == Side::Left),
{
    LeftPaddleEntity {
        paddle: LeftPaddle { speed: config.game_paddle_speed },
        transform: create_left_paddle_sprite(window.width, config.sprite_unit_size),
        service: game_data.starting_side == Side::Left,
    }
}

/// The right paddle at the start of a game. It holds the ball if its side
/// serves first.
pub fn setup_right_paddle_system(window: &Window, config: &Config, game_data: &GameData) -> (entity:
    RightPaddleEntity)
    ensures
        entity.transform == create_right_paddle_sprite(window.width, config.sprite_unit_size),
        entity.paddle.speed == config.game_paddle_speed,
        entity.paddle.velocity == Vector2::zero(),
        entity.service == (game_data.starting_side == Side::Right),
{
    RightPaddleEntity {
        paddle: RightPaddle { velocity: Vector2::zero(), speed: config.game_paddle_speed },
        transform: create_right_paddle_sprite(window.width, config.sprite_unit_size),
        service: game_data.starting_side == Side::Right,
    }
}

/// The ball at the start of a game: at rest in the middle, with the first
/// speed.
pub fn setup_ball_system(config: &Config) -> (entity: (Ball, Transform))
    ensures
        entity.0 == (Ball { speed: config.game_ball_speed_min, velocity: Vector2::zero() }),
        entity.1 == create_ball_sprite(config.sprite_unit_size, Vector2::zero()),
{
    (
        Ball { speed: config.game_ball_speed_min, velocity: Vector2::zero() },
        create_ball_sprite(config.sprite_unit_size, Vector2::zero()),
    )
}

/// Where the paddle that serves holds the ball: at its own height, and off
/// its centre by its width and the gap, towards the net.
pub open spec fn served_position(side: Side, paddle: Transform) -> Vector2 {
    Vector2 {
        x: match side {
            Side::Left => saturate(paddle.translation.x + paddle.scale.x + SERVICE_GAP),
            Side::Right => saturate(paddle.translation.x - paddle.scale.x - SERVICE_GAP),
        } as i32,
        y: paddle.translation.y,
    }
}

/// Keeps the ball with the paddle that serves. Where nobody serves, the
/// ball stays where it is.
pub fn service_system(
    ball_transform: &mut Transform,
    left: &LeftPaddleEntity,
    right: &RightPaddleEntity,
)
    ensures
        final(ball_transform).scale == old(ball_transform).scale,
        final(ball_transform).translation == match serving_side(left.service, right.service) {
            Some(Side::Left) => served_position(Side::Left, left.transform),
            Some(Side::Right) => served_position(Side::Right, right.transform),
            None => old(ball_transform).translation,
        },
{
    match serving_side_exec(left.service, right.service) {
        Some(Side::Left) => {
            let x: i64 = left.transform.translation.x as i64 + left.transform.scale.x as i64
                + SERVICE_GAP as i64;
            ball_transform.translation.y = left.transform.translation.y;
            ball_transform.translation.x = saturate_i64(x);
        },
        Some(Side::Right) => {
            let x: i64 = right.transform.translation.x as i64 - right.transform.scale.x as i64
                - SERVICE_GAP as i64;
            ball_transform.translation.y = right.transform.translation.y;
            ball_transform.translation.x = saturate_i64(x);
        },
        None => {},
    }
}

/// The direction of a serve: towards the net, one part up or down for four
/// parts along; down for an even draw.
pub open spec fn launch_direction(side: Side, draw: u32) -> (int, int) {
    (
        match side {
            Side::Left => LAUNCH_RUN as int,
            Side::Right => -LAUNCH_RUN,
        },
        if draw % 2 == 0 {
            -LAUNCH_RISE
        } else {
            LAUNCH_RISE as int
        },
    )
}

/// The velocity of a serve: as long as `speed`, in the direction of
/// [`launch_direction`].
pub open spec fn launch_velocity(side: Side, draw: u32, speed: int) -> Vector2 {
    let (dx, dy) = launch_direction(side, draw);
    Vector2 { x: aim_component(dx, dy, speed) as i32, y: aim_component(dy, dx, speed) as i32 }
}

/// Computes [`launch_velocity`].
pub fn launch_velocity_exec(side: Side, draw: u32, speed: i32) -> (velocity: Vector2)
    ensures
        velocity == launch_velocity(side, draw, speed as int),
{
    let dx: i64 = match side {
        Side::Left => LAUNCH_RUN,
        Side::Right => -LAUNCH_RUN,
    };
    let dy: i64 = if draw % 2 == 0 {
        -LAUNCH_RISE
    } else {
        LAUNCH_RISE
    };
    Vector2 { x: aim_component_exec(dx, dy, speed), y: aim_component_exec(dy, dx, speed) }
}

/// Whether a launch is accepted: the game is not over, the launch key was
/// let go, and exactly one paddle holds the ball.
pub open spec fn launch_accepted(
    left_service: bool,
    right_service: bool,
    keyboard: Keys,
    game_data: GameData,
) -> bool {
    &&& game_data.game_over is None
    &&& keyboard.space_released
    &&& serving_side(left_service, right_service) is Some
}

/// Serves with a given draw. An accepted launch gives the ball its
/// velocity and takes the ball from the paddle that held it; any other
/// launch changes nothing. Returns whether the launch was accepted.
pub fn launch_ball(
    ball: &mut Ball,
    left: &mut LeftPaddleEntity,
    right: &mut RightPaddleEntity,
    keyboard: &Keys,
    game_data: &GameData,
    draw: u32,
) -> (launched: bool)
    ensures
        launched == launch_accepted(old(left).service, old(right).service, *keyboard, *game_data),
        launched ==> {
            &&& final(ball).velocity == launch_velocity(
                serving_side(old(left).service, old(right).service)->0,
                draw,
                old(ball).speed as int,
            )
            &&& final(ball).speed == old(ball).speed
            &&& *final(left) == (LeftPaddleEntity { service: false, ..*old(left) })
            &&& *final(right) == (RightPaddleEntity { service: false, ..*old(right) })
        },
        !launched ==> {
            &&& *final(ball) == *old(ball)
            &&& *final(left) == *old(left)
            &&& *final(right) == *old(right)
        },
{
    if game_data.game_over.is_some() {
        return false;
    }
    if !keyboard.space_released {
        return false;
    }
    match serving_side_exec(left.service, right.service) {
        None => false,
        Some(side) => {
            ball.velocity = launch_velocity_exec(side, draw, ball.speed);
            match side {
                Side::Left => {
                    left.service = false;
                },
                Side::Right => {
                    right.service = false;
                },
            }
            true
        },
    }
}

/// Serves when the launch key was let go: towards the net, up or down by
/// chance. See [`launch_ball`] for what a launch does.
pub fn launch_ball_system(
    ball: &mut Ball,
    left: &mut LeftPaddleEntity,
    right: &mut RightPaddleEntity,
    keyboard: &Keys,
    game_data: &GameData,
) -> (launched: bool)
    ensures
        launched == launch_accepted(old(left).service, old(right).service, *keyboard, *game_data),
        launched ==> {
            &&& exists|draw: u32|
                final(ball).velocity == launch_velocity(
                    serving_side(old(left).service, old(right).service)->0,
                    draw,
                    old(ball).speed as int,
                )
            &&& final(ball).speed == old(ball).speed
            &&& *final(left) == (LeftPaddleEntity { service: false, ..*old(left) })
            &&& *final(right) == (RightPaddleEntity { service: false, ..*old(right) })
        },
        !launched ==> {
            &&& *final(ball) == *old(ball)
            &&& *final(left) == *old(left)
            &&& *final(right) == *old(right)
        },
{
    if game_data.game_over.is_some() || !keyboard.space_released || serving_side_exec(
        left.service,
        right.service,
    ).is_none() {
        return false;
    }
    let draw: u32 = random_u32();
    launch_ball(ball, left, right, keyboard, game_data, draw)
}

/// How many of `events` name the goal line of `side`.
pub open spec fn count_out(events: Seq<BallOutEvent>, side: Side) -> nat
    decreases events.len(),
{
    if events.len() == 0 {
        0
    } else {
        count_out(events.drop_last(), side) + if events.last().0 == side {
            1nat
        } else {
            0nat
        }
    }
}

/// The more events are counted, the greater the count.
pub proof fn lemma_count_out_grows(events: Seq<BallOutEvent>, i: int, j: int, side: Side)
    requires
        0 <= i <= j <= events.len(),
    ensures
        count_out(events.take(i), side) <= count_out(events.take(j), side),
    decreases j - i,
{
    if i < j {
        lemma_count_out_grows(events, i, j - 1, side);
        assert(events.take(j).drop_last() =~= events.take(j - 1));
    }
}

/// A list of one event at most holds one ball at most behind a goal line.
pub proof fn lemma_count_single(events: Seq<BallOutEvent>, side: Side)
    requires
        events.len() <= 1,
    ensures
        count_out(events, side) <= 1,
        events.len() == 1 ==> count_out(events, side) == (if events[0].0 == side {
            1nat
        } else {
            0nat
        }),
{
    reveal_with_fuel(count_out, 2);
}

/// The state after the points for `events` are given: a ball behind the
/// left goal line is a point for the right side, a ball behind the right
/// goal line a point for the left side. Once a game is over, no more points
/// are given.
pub open spec fn scores_after(game_data: GameData, events: Seq<BallOutEvent>) -> GameData {
    if game_data.game_over is Some {
        game_data
    } else {
        GameData {
            left_score: (game_data.left_score + count_out(events, Side::Right)) as u32,
            right_score: (game_data.right_score + count_out(events, Side::Left)) as u32,
            ..game_data
        }
    }
}

/// Gives the points for the balls that went out. The scores must have room
/// for them.
pub fn increment_score_system(ball_out_event: &Vec<BallOutEvent>, game_data: &mut GameData)
    requires
        old(game_data).game_over is None ==> {
            &&& old(game_data).left_score + count_out(ball_out_event@, Side::Right) <= u32::MAX
            &&& old(game_data).right_score + count_out(ball_out_event@, Side::Left) <= u32::MAX
        },
    ensures
        *final(game_data) == scores_after(*old(game_data), ball_out_event@),
{
    if game_data.game_over.is_some() {
        return ;
    }
    let mut i: usize = 0;
    while i < ball_out_event.len()
        invariant
            0 <= i <= ball_out_event.len(),
            old(game_data).game_over is None,
            old(game_data).left_score + count_out(ball_out_event@, Side::Right) <= u32::MAX,
            old(game_data).right_score + count_out(ball_out_event@, Side::Left) <= u32::MAX,
            *game_data == scores_after(*old(game_data), ball_out_event@.take(i as int)),
        decreases ball_out_event.len() - i,
    {
        proof {
            assert(ball_out_event@.take(i + 1).drop_last() =~= ball_out_event@.take(i as int));
            assert(ball_out_event@.take(ball_out_event.len() as int) =~= ball_out_event@);
            lemma_count_out_grows(ball_out_event@, i + 1, ball_out_event.len() as int, Side::Left);
            lemma_count_out_grows(ball_out_event@, i + 1, ball_out_event.len() as int, Side::Right);
        }
        match ball_out_event[i].0 {
            Side::Left => {
                game_data.right_score = game_data.right_score + 1;
            },
            Side::Right => {
                game_data.left_score = game_data.left_score + 1;
            },
        }
        i = i + 1;
    }
    proof {
        assert(ball_out_event@.take(ball_out_event.len() as int) =~= ball_out_event@);
    }
}

/// What the end of a rally reads and changes: the ball, the two paddles and
/// the state of the game.
pub struct Round {
    pub ball: Ball,
    pub left: LeftPaddleEntity,
    pub right: RightPaddleEntity,
    pub game_data: GameData,
}

/// Whether a ball behind the goal line of `side` ends the game: the game
/// is still on, and the side that scored has the points that win.
pub open spec fn ends_game(game_data: GameData, side: Side, config: Config) -> bool {
    &&& game_data.game_over is None
    &&& game_data.points_of(side.opposite()) == config.game_1v1_score_to_win
}

/// A footprint moved to the middle line.
pub open spec fn centred(transform: Transform) -> Transform {
    Transform { translation: Vector2 { x: transform.translation.x, y: 0 }, scale: transform.scale }
}

/// The round after a ball went out behind the goal line of `side`, the
/// point already given. If the game is over, nothing changes. If the side
/// that scored has the points that win, it is recorded as the winner, and
/// nothing else changes. Otherwise the next rally is made ready: the side
/// that scored, and no other, holds the ball, both paddles go to the middle
/// line, and the ball rests.
pub open spec fn round_after_ball_out(round: Round, side: Side, config: Config) -> Round {
    if round.game_data.game_over is Some {
        round
    } else if ends_game(round.game_data, side, config) {
        Round {
            game_data: GameData { game_over: Some(side.opposite()), ..round.game_data },
            ..round
        }
    } else {
        Round {
            ball: Ball { velocity: Vector2::zero(), ..round.ball },
            left: LeftPaddleEntity {
                transform: centred(round.left.transform),
                service: side == Side::Right,
                ..round.left
            },
            right: RightPaddleEntity {
                transform: centred(round.right.transform),
                service: side == Side::Left,
                ..round.right
            },
            game_data: round.game_data,
        }
    }
}

/// The round after the balls of `events` went out, and the ends of the game
/// that were announced on the way: one at most, for the first ball that
/// brought the points that win.
pub open spec fn rounds_after(round: Round, events: Seq<BallOutEvent>, config: Config) -> (
    Round,
    Seq<GameOverEvent>,
)
    decreases events.len(),
{
    if events.len() == 0 {
        (round, Seq::empty())
    } else {
        let (before, sent) = rounds_after(round, events.drop_last(), config);
        (
            round_after_ball_out(before, events.last().0, config),
            if ends_game(before.game_data, events.last().0, config) {
                sent.push(GameOverEvent(events.last().0.opposite()))
            } else {
                sent
            },
        )
    }
}

/// Ends the rally for one ball that went out behind the goal line of
/// `side`: see [`round_after_ball_out`]. Returns whether the game ended.
pub fn check_game_over(
    side: Side,
    ball: &mut Ball,
    left: &mut LeftPaddleEntity,
    right: &mut RightPaddleEntity,
    game_data: &mut GameData,
    config: &Config,
) -> (ended: bool)
    ensures
        ended == ends_game(*old(game_data), side, *config),
        (Round {
            ball: *final(ball),
            left: *final(left),
            right: *final(right),
            game_data: *final(game_data),
        }) == round_after_ball_out(
            Round { ball: *old(ball), left: *old(left), right: *old(right), game_data: *old(game_data) },
            side,
            *config,
        ),
{
    if game_data.game_over.is_some() {
        return false;
    }
    let points: u32 = match side {
        Side::Left => game_data.right_score,
        Side::Right => game_data.left_score,
    };
    if points == config.game_1v1_score_to_win {
        game_data.game_over = Some(side.opposite());
        true
    } else {
        left.service = side == Side::Right;
        right.service = side == Side::Left;
        left.transform.translation.y = 0;
        right.transform.translation.y = 0;
        ball.velocity = Vector2::zero();
        false
    }
}

/// Ends the rally for each ball that went out, in order, and announces the
/// end of the game when a side has the points that win. After that end
/// nothing more changes.
pub fn check_game_over_system(
    ball_out_event: &Vec<BallOutEvent>,
    game_over_event: &mut Vec<GameOverEvent>,
    ball: &mut Ball,
    left: &mut LeftPaddleEntity,
    right: &mut RightPaddleEntity,
    game_data: &mut GameData,
    config: &Config,
)
    ensures
        (Round {
            ball: *final(ball),
            left: *final(left),
            right: *final(right),
            game_data: *final(game_data),
        }) == rounds_after(
            Round { ball: *old(ball), left: *old(left), right: *old(right), game_data: *old(game_data) },
            ball_out_event@,
            *config,
        ).0,
        final(game_over_event)@ == old(game_over_event)@ + rounds_after(
            Round { ball: *old(ball), left: *old(left), right: *old(right), game_data: *old(game_data) },
            ball_out_event@,
            *config,
        ).1,
{
    let ghost start = Round { ball: *ball, left: *left, right: *right, game_data: *game_data };
    let mut i: usize = 0;
    while i < ball_out_event.len()
        invariant
            0 <= i <= ball_out_event.len(),
            (Round { ball: *ball, left: *left, right: *right, game_data: *game_data })
                == rounds_after(start, ball_out_event@.take(i as int), *config).0,
            game_over_event@ == old(game_over_event)@ + rounds_after(
                start,
                ball_out_event@.take(i as int),
                *config,
            ).1,
        decreases ball_out_event.len() - i,
    {
        let side: Side = ball_out_event[i].0;
        proof {
            assert(ball_out_event@.take(i + 1).drop_last() =~= ball_out_event@.take(i as int));
        }
        if check_game_over(side, ball, left, right, game_data, config) {
            game_over_event.push(GameOverEvent(side.opposite()));
        }
        i = i + 1;
    }
    proof {
        assert(ball_out_event@.take(ball_out_event.len() as int) =~= ball_out_event@);
    }
}

/// What a side is told at the end of a game.
#[derive(Clone, Copy, Debug, PartialEq, Eq, Structural)]
pub enum Verdict {
    Win,
    Lose,
}

/// What the two sides are told at the end of a game.
#[derive(Clone, Copy, Debug, PartialEq, Eq, Structural)]
pub struct Banner {
    pub left: Verdict,
    pub right: Verdict,
}

/// The banner for a game that `winner` has won.
pub open spec fn banner_for(winner: Side) -> Banner {
    match winner {
        Side::Left => Banner { left: Verdict::Win, right: Verdict::Lose },
        Side::Right => Banner { left: Verdict::Lose, right: Verdict::Win },
    }
}

/// The banner to show for the end of a game. Of several announcements in
/// one frame the first counts; without one there is no banner.
pub fn game_over_system(game_over_event: &Vec<GameOverEvent>) -> (banner: Option<Banner>)
    ensures
        banner == if game_over_event.len() == 0 {
            None
        } else {
            Some(banner_for(game_over_event[0].0))
        },
{
    if game_over_event.len() == 0 {
        None
    } else {
        match game_over_event[0].0 {
            Side::Left => Some(Banner { left: Verdict::Win, right: Verdict::Lose }),
            Side::Right => Some(Banner { left: Verdict::Lose, right: Verdict::Win }),
        }
    }
}

} // verus!
