//! What holds of the rules whatever the players do.

use crate::collision::bounce;
use crate::collision::collision_point;
use crate::collision::collision_side;
use crate::collision::collision_time;
use crate::collision::first_overlap_from;
use crate::collision::is_paddle_face;
use crate::collision::lemma_collision_point_on_binding_axis;
use crate::collision::overlaps;
use crate::collision::paddle_return;
use crate::collision::paddle_return_direction;
use crate::collision::resolve;
use crate::collision::struck;
use crate::collision::x_axis_binds;
use crate::collision::x_to_collision;
use crate::collision::y_to_collision;
use crate::collision::Collision;
use crate::collision::Obstacle;
use crate::components::serving_side;
use crate::components::Ball;
use crate::components::Collider;
use crate::components::GameData;
use crate::components::RightPaddle;
use crate::components::Side;
use crate::components::Transform;
use crate::components::Vector2;
use crate::components::Window;
use crate::config::Config;
use crate::events::BallOutEvent;
use crate::events::GameOverEvent;
use crate::fixed::ceil_sqrt;
use crate::fixed::half;
use crate::fixed::lemma_aim_nearly_as_long_as_speed;
use crate::fixed::lemma_aim_within_speed;
use crate::fixed::lemma_ceil_sqrt_exists;
use crate::fixed::lemma_ceil_sqrt_unique;
use crate::fixed::magnitude;
use crate::input::Keys;
use crate::mode_1p::ai_moves;
use crate::mode_1p::ai_paddle_after;
use crate::mode_1p::Mode1PPlugin;
use crate::mode_2p::Mode2PPlugin;
use crate::systems_1v1::launch_accepted;
use crate::systems_1v1::launch_direction;
use crate::systems_1v1::launch_velocity;
use crate::systems_1v1::lemma_count_single;
use crate::systems_1v1::round_after_ball_out;
use crate::systems_1v1::rounds_after;
use crate::systems_1v1::scores_after;
use crate::systems_1v1::Round;
use crate::systems_generic::ball_out_side;
use crate::systems_generic::paddle_bound;
use crate::systems_generic::paddle_y_after;
use crate::world::World;
use vstd::prelude::*;

verus! {

/// A serve is no faster than the speed of the ball.
pub proof fn law_launch_within_speed(side: Side, draw: u32, speed: i32)
    requires
        0 <= speed,
    ensures
        (Ball { speed, velocity: launch_velocity(side, draw, speed as int) }).within_speed(),
{
    let (dx, dy) = launch_direction(side, draw);
    lemma_aim_within_speed(dx, dy, speed as int);
}

/// A serve is as fast as the speed of the ball, as nearly as whole numbers
/// allow: it is no faster, each coordinate of its velocity lacks less than
/// one unit a second, and the whole less than one part in 67553.
pub proof fn law_launch_matches_speed(side: Side, draw: u32, speed: i32)
    requires
        0 <= speed,
    ensures
        ({
            let v = launch_velocity(side, draw, speed as int);
            let x = magnitude(v.x as int);
            let y = magnitude(v.y as int);
            &&& v.length_squared() <= speed * speed
            &&& ((x + 1) * (x + 1) + (y + 1) * (y + 1)) * (67553 * 67553) > (speed * speed) * (67552
                * 67552)
        }),
{
    let (dx, dy) = launch_direction(side, draw);
    lemma_launch_length(side, draw);
    lemma_aim_within_speed(dx, dy, speed as int);
    lemma_aim_nearly_as_long_as_speed(dx, dy, speed as int);
}

/// What the front of a paddle returns is as fast as the speed of the ball
/// before the hit, as nearly as whole numbers allow: it is no faster, and
/// with `n` the rounded-up length of the direction of the return, each
/// coordinate lacks less than one unit a second and the whole less than
/// one part in `n`.
pub proof fn law_paddle_return_matches_speed(ball_y: i32, velocity: Vector2, speed: i32, paddle: Transform)
    requires
        0 <= speed,
        paddle.scale.y != 0 || ball_y != paddle.translation.y,
    ensures
        ({
            let (dx, dy) = paddle_return_direction(ball_y as int, velocity, paddle);
            let n = ceil_sqrt(dx * dx + dy * dy);
            let v = paddle_return(ball_y as int, velocity, speed as int, paddle);
            let x = magnitude(v.x as int);
            let y = magnitude(v.y as int);
            &&& n >= 1
            &&& v.length_squared() <= speed * speed
            &&& ((x + 1) * (x + 1) + (y + 1) * (y + 1)) * (n * n) > (speed * speed) * ((n - 1) * (n
                - 1))
        }),
{
    let (dx, dy) = paddle_return_direction(ball_y as int, velocity, paddle);
    lemma_aim_within_speed(dx, dy, speed as int);
    lemma_aim_nearly_as_long_as_speed(dx, dy, speed as int);
}

/// The length of the direction of a serve, rounded up.
proof fn lemma_launch_length(side: Side, draw: u32)
    ensures
        ceil_sqrt(launch_direction(side, draw).0 * launch_direction(side, draw).0
            + launch_direction(side, draw).1 * launch_direction(side, draw).1) == 67553,
        ceil_sqrt(launch_direction(side, draw).1 * launch_direction(side, draw).1
            + launch_direction(side, draw).0 * launch_direction(side, draw).0) == 67553,
{
    let (dx, dy) = launch_direction(side, draw);
    assert(dy * dy == 0x1000_0000) by (nonlinear_arith)
        requires
            dy == 0x4000 || dy == -0x4000,
    ;
    let m = dx * dx + dy * dy;
    lemma_ceil_sqrt_exists(m);
    lemma_ceil_sqrt_unique(m, 67553, ceil_sqrt(m));
}

/// A serve heads for the net: to the right from the left paddle, to the
/// left from the right paddle, as soon as the speed of the ball is two
/// units a second or more.
pub proof fn law_launch_heads_for_the_net(side: Side, draw: u32, speed: i32)
    requires
        2 <= speed,
    ensures
        side == Side::Left ==> launch_velocity(side, draw, speed as int).x > 0,
        side == Side::Right ==> launch_velocity(side, draw, speed as int).x < 0,
{
    let (dx, dy) = launch_direction(side, draw);
    lemma_launch_length(side, draw);
    lemma_aim_within_speed(dx, dy, speed as int);
}

/// The face that a moving ball strikes is the one it was moving towards:
/// the left face of what it overlaps if the ball met it going right, the
/// right face going left, and on the other axis `Top` for a ball going up
/// and `Bottom` for a ball going down.
pub proof fn law_struck_face_faces_the_ball(ball: Transform, velocity: Vector2, other: Transform)
    requires
        overlaps(ball, other),
        !velocity.is_zero(),
    ensures
        match collision_side(ball, velocity, other) {
            Collision::Left => velocity.x > 0 && x_axis_binds(ball, velocity, other),
            Collision::Right => velocity.x < 0 && x_axis_binds(ball, velocity, other),
            Collision::Top => velocity.y > 0 && !x_axis_binds(ball, velocity, other),
            Collision::Bottom => velocity.y < 0 && !x_axis_binds(ball, velocity, other),
        },
{
}

/// The first collider in the order of the list wins: the first overlap
/// from `from` on, if there is one, is an overlap, lies in
/// the list, and nothing between `from` and it overlaps the ball; if there
/// is none, nothing from `from` on overlaps the ball.
pub proof fn law_first_overlap_wins(ball: Transform, colliders: Seq<Obstacle>, from: int)
    requires
        0 <= from,
    ensures
        match first_overlap_from(ball, colliders, from) {
            Some(i) => {
                &&& from <= i < colliders.len()
                &&& overlaps(ball, colliders[i].transform)
                &&& forall|j: int| from <= j < i ==> !overlaps(ball, #[trigger] colliders[j].transform)
            },
            None => forall|j: int|
                from <= j < colliders.len() ==> !overlaps(ball, #[trigger] colliders[j].transform),
        },
    decreases colliders.len() - from,
{
    if from < colliders.len() && !overlaps(ball, colliders[from].transform) {
        law_first_overlap_wins(ball, colliders, from + 1);
    }
}

/// The ball met what it overlaps before now: the way back runs against the
/// velocity, so the time of contact is below zero.
pub proof fn law_contact_lies_in_the_past(ball: Transform, velocity: Vector2, other: Transform)
    requires
        overlaps(ball, other),
        !velocity.is_zero(),
    ensures
        collision_time(ball, velocity, other).1 != 0,
        collision_time(ball, velocity, other).1 > 0 ==> collision_time(ball, velocity, other).0 < 0,
        collision_time(ball, velocity, other).1 < 0 ==> collision_time(ball, velocity, other).0 > 0,
{
}

/// A ball that was set back to the point of contact touches the face it
/// struck and no longer overlaps what it struck, as long as that point lies
/// in the range of coordinates.
pub proof fn law_resolved_ball_touches_the_struck_face(
    ball: Transform,
    velocity: Vector2,
    other: Transform,
)
    requires
        overlaps(ball, other),
        !velocity.is_zero(),
        i32::MIN <= ball.translation.x + x_to_collision(ball, velocity, other) <= i32::MAX,
        i32::MIN <= ball.translation.y + y_to_collision(ball, velocity, other) <= i32::MAX,
    ensures
        ({
            let moved = Transform {
                translation: collision_point(ball, velocity, other),
                scale: ball.scale,
            };
            &&& !overlaps(moved, other)
            &&& match collision_side(ball, velocity, other) {
                Collision::Left => moved.right() == other.left(),
                Collision::Right => moved.left() == other.right(),
                Collision::Top => moved.top() == other.bottom(),
                Collision::Bottom => moved.bottom() == other.top(),
            }
        }),
{
    lemma_collision_point_on_binding_axis(ball, velocity, other);
}

/// The speed of the ball never falls and never passes the greatest speed;
/// only the front of a paddle changes it, and then it grows by the
/// configured step, or as far as the greatest speed lets it.
pub proof fn law_speed_only_grows(ball: Ball, ball_transform: Transform, obstacle: Obstacle, config: Config)
    requires
        config.speeds_in_order(),
        ball.speed <= config.game_ball_speed_max,
    ensures
        ({
            let after = resolve(ball, ball_transform, obstacle, config).0;
            let side = collision_side(ball_transform, ball.velocity, obstacle.transform);
            &&& ball.speed <= after.speed <= config.game_ball_speed_max
            &&& after.speed == if obstacle.collider == Collider::Paddle && is_paddle_face(side) {
                if ball.speed + config.game_ball_speed_incr < config.game_ball_speed_max {
                    ball.speed + config.game_ball_speed_incr
                } else {
                    config.game_ball_speed_max as int
                }
            } else {
                ball.speed as int
            }
        }),
{
}

/// A collision leaves a ball that was no faster than its speed no faster
/// than its speed.
pub proof fn law_collision_keeps_within_speed(
    ball: Ball,
    ball_transform: Transform,
    obstacle: Obstacle,
    config: Config,
)
    requires
        config.speeds_in_order(),
        ball.within_speed(),
        ball.speed <= config.game_ball_speed_max,
    ensures
        resolve(ball, ball_transform, obstacle, config).0.within_speed(),
{
    let after = resolve(ball, ball_transform, obstacle, config).0;
    let side = collision_side(ball_transform, ball.velocity, obstacle.transform);
    law_speed_only_grows(ball, ball_transform, obstacle, config);
    if obstacle.collider == Collider::Paddle && is_paddle_face(side) {
        let point = collision_point(ball_transform, ball.velocity, obstacle.transform);
        let (dx, dy) = paddle_return_direction(point.y as int, ball.velocity, obstacle.transform);
        lemma_aim_within_speed(dx, dy, ball.speed as int);
        assert(ball.speed * ball.speed <= after.speed * after.speed) by (nonlinear_arith)
            requires
                0 <= ball.speed <= after.speed,
        ;
    } else {
        let v = ball.velocity;
        let w = bounce(v, side);
        assert(w.x * w.x <= v.x * v.x) by (nonlinear_arith)
            requires
                w.x == v.x || w.x == -v.x || (v.x == -0x8000_0000 && w.x == 0x7fff_ffff),
        ;
        assert(w.y * w.y <= v.y * v.y) by (nonlinear_arith)
            requires
                w.y == v.y || w.y == -v.y || (v.y == -0x8000_0000 && w.y == 0x7fff_ffff),
        ;
    }
}

/// A paddle that has moved lies inside the playfield: its centre is no
/// further from the middle line than the bound, whenever the bound is not
/// negative.
pub proof fn law_paddle_stays_in_bounds(y: int, direction: int, speed: int, dt: int, bound: int)
    requires
        0 <= bound,
    ensures
        -bound <= paddle_y_after(y, direction, speed, dt, bound) <= bound,
{
}

/// The paddle that the computer has moved lies inside the playfield.
pub proof fn law_ai_paddle_stays_in_bounds(
    paddle: RightPaddle,
    transform: Transform,
    ball: Ball,
    ball_transform: Transform,
    window: Window,
    dt: u32,
    config: Config,
    draw: u32,
)
    requires
        0 <= paddle_bound(window, config, transform),
        ai_moves(transform, ball, ball_transform, window, draw),
    ensures
        ({
            let after = ai_paddle_after(
                paddle,
                transform,
                ball,
                ball_transform,
                window,
                dt,
                config,
                draw,
            ).1;
            &&& -paddle_bound(window, config, transform) <= after.translation.y <= paddle_bound(
                window,
                config,
                transform,
            )
            &&& paddle_bound(window, config, after) == paddle_bound(window, config, transform)
        }),
{
}

/// Without a ball that is out, the score and the round stay as they are
/// and no end of the game is announced; in the solo game, where returns
/// with the paddle score, the same holds without a return and without a
/// ball that is out.
pub proof fn law_no_ball_out_no_change(round: Round, config: Config)
    ensures
        scores_after(round.game_data, Seq::empty()) == round.game_data,
        rounds_after(round, Seq::empty(), config) == (round, Seq::<GameOverEvent>::empty()),
        crate::mode_wall::scores_after(round.game_data, 0) == round.game_data,
        crate::mode_wall::game_data_after(round.game_data, Seq::empty()) == round.game_data,
{
}

/// A ball behind the left goal line is reported for the left goal line and
/// is a point for the right side and for nobody else; a ball behind the
/// right goal line, and not behind the left one as well, is a point for
/// the left side. (With a margin so far below zero that the two lines
/// change places, a ball between them is behind both, and the left line is
/// looked at first.)
pub proof fn law_point_goes_to_the_other_side(x: i32, window: Window, config: Config, game_data: GameData)
    requires
        game_data.game_over is None,
        game_data.left_score < u32::MAX,
        game_data.right_score < u32::MAX,
    ensures
        x < -half(window.width as int) - config.game_ball_oob_x ==> {
            &&& ball_out_side(x as int, window, config) == Some(Side::Left)
            &&& scores_after(game_data, seq![BallOutEvent(Side::Left)]) == (GameData {
                right_score: (game_data.right_score + 1) as u32,
                ..game_data
            })
        },
        x > half(window.width as int) + config.game_ball_oob_x && x
            >= -half(window.width as int) - config.game_ball_oob_x ==> {
            &&& ball_out_side(x as int, window, config) == Some(Side::Right)
            &&& scores_after(game_data, seq![BallOutEvent(Side::Right)]) == (GameData {
                left_score: (game_data.left_score + 1) as u32,
                ..game_data
            })
        },
{
    lemma_count_single(seq![BallOutEvent(Side::Left)], Side::Left);
    lemma_count_single(seq![BallOutEvent(Side::Left)], Side::Right);
    lemma_count_single(seq![BallOutEvent(Side::Right)], Side::Left);
    lemma_count_single(seq![BallOutEvent(Side::Right)], Side::Right);
}

/// The point that brings a side the score that wins ends the game: that
/// side is recorded as the winner, and the end is announced once.
pub proof fn law_winning_point_ends_game(round: Round, side: Side, config: Config)
    requires
        round.game_data.game_over is None,
        round.game_data.points_of(side.opposite()) == config.game_1v1_score_to_win,
    ensures
        round_after_ball_out(round, side, config).game_data.game_over == Some(side.opposite()),
        rounds_after(round, seq![BallOutEvent(side)], config).0.game_data.game_over == Some(
            side.opposite(),
        ),
        rounds_after(round, seq![BallOutEvent(side)], config).1 == seq![
            GameOverEvent(side.opposite()),
        ],
{
    reveal_with_fuel(rounds_after, 2);
}

/// A ball that goes out when the other side lacks one point to win ends the
/// game in the same frame: the point is given, that side is recorded as the
/// winner with exactly the score that wins, and the end is announced once.
pub proof fn law_last_point_wins(world: World, side: Side)
    requires
        world.game_data.game_over is None,
        world.game_data.points_of(side.opposite()) + 1 == world.config.game_1v1_score_to_win,
    ensures
        ({
            let events = seq![BallOutEvent(side)];
            let after = world.points_given(events).rallies_ended(events);
            &&& after.game_data.game_over == Some(side.opposite())
            &&& after.game_data.points_of(side.opposite()) == world.config.game_1v1_score_to_win
            &&& after.game_data.points_of(side) == world.game_data.points_of(side)
            &&& world.points_given(events).game_overs(events) == seq![GameOverEvent(side.opposite())]
        }),
{
    let events = seq![BallOutEvent(side)];
    lemma_count_single(events, Side::Left);
    lemma_count_single(events, Side::Right);
    let scored = world.points_given(events);
    law_winning_point_ends_game(scored.round(), side, world.config);
    reveal_with_fuel(rounds_after, 2);
}

/// Once a game is over it stays as it is: no ball that is out gives a
/// point, ends a rally or is announced as another end, and no launch is
/// accepted.
pub proof fn law_game_over_is_final(
    round: Round,
    events: Seq<BallOutEvent>,
    keyboard: Keys,
    config: Config,
)
    requires
        round.game_data.game_over is Some,
    ensures
        scores_after(round.game_data, events) == round.game_data,
        rounds_after(round, events, config) == (round, Seq::<GameOverEvent>::empty()),
        !launch_accepted(round.left.service, round.right.service, keyboard, round.game_data),
    decreases events.len(),
{
    if events.len() > 0 {
        law_game_over_is_final(round, events.drop_last(), keyboard, config);
    }
}

/// A new game between two sides starts on a sound playfield, with exactly
/// one paddle holding the ball, whenever the settings are in order.
pub proof fn law_start_is_sound(window: Window, config: Config, draw: u32)
    requires
        config.speeds_in_order(),
        config.game_1v1_score_to_win >= 1,
    ensures
        World::at_start(window, config, draw).wf(),
        World::at_start(window, config, draw).left.service != World::at_start(
            window,
            config,
            draw,
        ).right.service,
{
}

/// The first half of a frame keeps a sound playfield sound, leaves the
/// speed of the ball and the state of the game as they are, and leaves the
/// left paddle inside the playfield.
pub proof fn law_moves_keep_world_sound(world: World, keyboard: Keys, dt: u32, launch_draw: u32)
    requires
        world.wf(),
    ensures
        world.moved(keyboard, dt, launch_draw).wf(),
        world.moved(keyboard, dt, launch_draw).ball.speed == world.ball.speed,
        world.moved(keyboard, dt, launch_draw).game_data == world.game_data,
        world.moved(keyboard, dt, launch_draw).config == world.config,
        world.moved(keyboard, dt, launch_draw).window == world.window,
        world.moved(keyboard, dt, launch_draw).right.transform == world.right.transform,
        0 <= paddle_bound(world.window, world.config, world.left.transform) ==> {
            let after = world.moved(keyboard, dt, launch_draw);
            let bound = paddle_bound(after.window, after.config, after.left.transform);
            -bound <= after.left.transform.translation.y <= bound
        },
{
    let served = world.served();
    if served.launches(keyboard) {
        let side = serving_side(served.left.service, served.right.service)->0;
        law_launch_within_speed(side, launch_draw, world.ball.speed);
    }
}

/// The second half of a frame keeps a sound playfield sound; the speed of
/// the ball does not fall in it; and paddles that lay inside the playfield
/// still do.
pub proof fn law_rules_keep_world_sound(world: World)
    requires
        world.wf(),
    ensures
        world.ruled().wf(),
        world.ruled().ball.speed >= world.ball.speed,
        world.ruled().config == world.config,
        world.ruled().window == world.window,
        world.paddles_in_bounds() ==> world.ruled().paddles_in_bounds(),
{
    let after = world.collided();
    match struck(world.ball, world.ball_transform, world.colliders()) {
        None => {},
        Some(i) => {
            law_first_overlap_wins(world.ball_transform, world.colliders(), 0);
            law_speed_only_grows(world.ball, world.ball_transform, world.colliders()[i], world.config);
            law_collision_keeps_within_speed(
                world.ball,
                world.ball_transform,
                world.colliders()[i],
                world.config,
            );
        },
    }
    let events = after.balls_out();
    lemma_count_single(events, Side::Left);
    lemma_count_single(events, Side::Right);
    reveal_with_fuel(rounds_after, 2);
    let ended = after.points_given(events).rallies_ended(events);
    assert(ended.ball.within_speed()) by {
        if ended.ball.velocity.is_zero() {
            assert(ended.ball.speed * ended.ball.speed >= 0) by (nonlinear_arith);
        }
    }
}

/// A frame of the game against the computer keeps a sound playfield sound,
/// and the speed of the ball does not fall in it.
pub proof fn law_frame_1p_keeps_world_sound(
    world: World,
    keyboard: Keys,
    dt: u32,
    launch_draw: u32,
    ai_draw: u32,
)
    requires
        world.wf(),
    ensures
        Mode1PPlugin::moved(world, keyboard, dt, launch_draw, ai_draw).ruled().wf(),
        Mode1PPlugin::moved(world, keyboard, dt, launch_draw, ai_draw).ruled().ball.speed
            >= world.ball.speed,
        world.paddles_in_bounds() ==> Mode1PPlugin::moved(
            world,
            keyboard,
            dt,
            launch_draw,
            ai_draw,
        ).ruled().paddles_in_bounds(),
{
    law_moves_keep_world_sound(world, keyboard, dt, launch_draw);
    let moved = Mode1PPlugin::moved(world, keyboard, dt, launch_draw, ai_draw);
    law_rules_keep_world_sound(moved);
}

/// A frame of the game of two players keeps a sound playfield sound, and
/// the speed of the ball does not fall in it.
pub proof fn law_frame_2p_keeps_world_sound(world: World, keyboard: Keys, dt: u32, launch_draw: u32)
    requires
        world.wf(),
    ensures
        Mode2PPlugin::moved(world, keyboard, dt, launch_draw).ruled().wf(),
        Mode2PPlugin::moved(world, keyboard, dt, launch_draw).ruled().ball.speed >= world.ball.speed,
        world.paddles_in_bounds() ==> Mode2PPlugin::moved(
            world,
            keyboard,
            dt,
            launch_draw,
        ).ruled().paddles_in_bounds(),
{
    law_moves_keep_world_sound(world, keyboard, dt, launch_draw);
    let moved = Mode2PPlugin::moved(world, keyboard, dt, launch_draw);
    law_rules_keep_world_sound(moved);
}

/// A frame of the solo game keeps a sound playfield sound, the speed of the
/// ball does not fall in it, and it leaves the paddle inside the
/// playfield.
pub proof fn law_frame_wall_keeps_world_sound(
    world: crate::mode_wall::World,
    keyboard: Keys,
    dt: u32,
    launch_draw: u32,
)
    ensures
        world.wf() ==> world.moved(keyboard, dt, launch_draw).ruled().wf(),
        world.wf() ==> world.moved(keyboard, dt, launch_draw).ruled().ball.speed >= world.ball.speed,
        0 <= paddle_bound(world.window, world.config, world.left.transform) ==> world.moved(
            keyboard,
            dt,
            launch_draw,
        ).ruled().paddle_in_bounds(),
{
    if world.wf() {
        if world.launches(keyboard) {
            law_launch_within_speed(Side::Left, launch_draw, world.ball.speed);
        }
        let moved = world.moved(keyboard, dt, launch_draw);
        match struck(moved.ball, moved.ball_transform, moved.colliders()) {
            None => {},
            Some(i) => {
                law_first_overlap_wins(moved.ball_transform, moved.colliders(), 0);
                law_speed_only_grows(moved.ball, moved.ball_transform, moved.colliders()[i], moved.config);
                law_collision_keeps_within_speed(
                    moved.ball,
                    moved.ball_transform,
                    moved.colliders()[i],
                    moved.config,
                );
            },
        }
    }
}

} // verus!
