//! One player against the computer, which plays the right paddle.

use crate::chance::random_u32;
use crate::components::Ball;
use crate::components::RightPaddle;
use crate::components::RightPaddleEntity;
use crate::components::Transform;
use crate::components::Vector2;
use crate::components::Window;
use crate::config::Config;
use crate::fixed::half;
use crate::fixed::half_exec;
use crate::fixed::PIXEL;
use crate::input::Keys;
use crate::laws::law_frame_1p_keeps_world_sound;
use crate::state::GameState;
use crate::systems_1v1::net_dashes;
use crate::systems_generic::move_paddle;
use crate::systems_generic::paddle_bound;
use crate::systems_generic::paddle_y_after;
use crate::world::run_move_systems;
use crate::world::run_rule_systems;
use crate::world::setup_world;
use crate::world::Frame;
use crate::world::World;
use vstd::prelude::*;

verus! {

/// Whether the computer follows the ball: the ball moves to the right and
/// its centre is not beyond the right edge of the playfield.
pub open spec fn ai_tracks(ball: Ball, ball_transform: Transform, window: Window) -> bool {
    &&& ball.velocity.x > 0
    &&& ball_transform.translation.x <= half(window.width as int)
}

/// The slack of one frame: a whole number of pixels from one up to half the
/// height of the paddle, picked by the drawn number.
pub open spec fn ai_slack(draw: u32, paddle: Transform) -> int {
    (draw as int % (paddle.half_height() / PIXEL as int) + 1) * PIXEL
}

/// Whether the computer moves its paddle: it follows the ball, and the
/// ball is at least the slack above or below the paddle's centre.
pub open spec fn ai_moves(
    paddle: Transform,
    ball: Ball,
    ball_transform: Transform,
    window: Window,
    draw: u32,
) -> bool {
    let gap = paddle.translation.y - ball_transform.translation.y;
    &&& ai_tracks(ball, ball_transform, window)
    &&& (if gap >= 0 {
        gap
    } else {
        -gap
    }) >= ai_slack(draw, paddle)
}

/// The right paddle after the computer has played a frame. Where it moves,
/// it goes towards the ball at the configured paddle speed and is held
/// inside the playfield; where it does not, it stays where it is and its
/// scratch velocity is set to rest along y.
pub open spec fn ai_paddle_after(
    paddle: RightPaddle,
    transform: Transform,
    ball: Ball,
    ball_transform: Transform,
    window: Window,
    dt: u32,
    config: Config,
    draw: u32,
) -> (RightPaddle, Transform) {
    if ai_moves(transform, ball, ball_transform, window, draw) {
        (
            paddle,
            Transform {
                translation: Vector2 {
                    x: transform.translation.x,
                    y: paddle_y_after(
                        transform.translation.y as int,
                        if ball_transform.translation.y > transform.translation.y {
                            1
                        } else {
                            -1
                        },
                        config.game_paddle_speed as int,
                        dt as int,
                        paddle_bound(window, config, transform),
                    ) as i32,
                },
                scale: transform.scale,
            },
        )
    } else {
        (RightPaddle { velocity: Vector2 { x: paddle.velocity.x, y: 0 }, ..paddle }, transform)
    }
}

/// Whether the paddle is high enough for the slack to be drawn: half its
/// height is a pixel at least.
pub open spec fn ai_can_draw(paddle: Transform) -> bool {
    paddle.scale.y >= 2 * PIXEL
}

/// Plays a frame for the computer with a given draw: see
/// [`ai_paddle_after`].
pub fn move_right_paddle_with_ai(
    paddle: &mut RightPaddle,
    paddle_transform: &mut Transform,
    ball: &Ball,
    ball_transform: &Transform,
    window: &Window,
    dt: u32,
    config: &Config,
    draw: u32,
)
    requires
        ai_can_draw(*old(paddle_transform)),
    ensures
        (*final(paddle), *final(paddle_transform)) == ai_paddle_after(
            *old(paddle),
            *old(paddle_transform),
            *ball,
            *ball_transform,
            *window,
            dt,
            *config,
            draw,
        ),
{
    if ball.velocity.x <= 0 {
        paddle.velocity.y = 0;
        return ;
    }
    if ball_transform.translation.x > half_exec(window.width) {
        paddle.velocity.y = 0;
        return ;
    }
    let ball_y: i64 = ball_transform.translation.y as i64;
    let paddle_y: i64 = paddle_transform.translation.y as i64;
    let gap: i64 = paddle_y - ball_y;
    let dist: i64 = if gap >= 0 {
        gap
    } else {
        -gap
    };
    let reach: u32 = (half_exec(paddle_transform.scale.y) / PIXEL) as u32;
    let rnd: i64 = (draw % reach) as i64 + 1;
    if dist < rnd * PIXEL as i64 {
        paddle.velocity.y = 0;
        return ;
    }
    let direction: i32 = if ball_y > paddle_y {
        1
    } else {
        -1
    };
    move_paddle(paddle_transform, direction, config.game_paddle_speed, window, dt, config);
}

/// Plays a frame for the computer. The slack is drawn anew in every frame
/// in which the computer follows the ball.
pub fn move_right_paddle_with_ai_system(
    paddle: &mut RightPaddle,
    paddle_transform: &mut Transform,
    ball: &Ball,
    ball_transform: &Transform,
    window: &Window,
    dt: u32,
    config: &Config,
)
    requires
        ai_can_draw(*old(paddle_transform)),
    ensures
        exists|draw: u32|
            (*final(paddle), *final(paddle_transform)) == ai_paddle_after(
                *old(paddle),
                *old(paddle_transform),
                *ball,
                *ball_transform,
                *window,
                dt,
                *config,
                draw,
            ),
{
    let tracks: bool = ball.velocity.x > 0 && ball_transform.translation.x <= half_exec(
        window.width,
    );
    let draw: u32 = if tracks {
        random_u32()
    } else {
        0
    };
    move_right_paddle_with_ai(
        paddle,
        paddle_transform,
        ball,
        ball_transform,
        window,
        dt,
        config,
        draw,
    );
}

/// The game of one player against the computer.
pub struct Mode1PPlugin;

impl Mode1PPlugin {
    /// The playfield after the computer has played its paddle.
    pub open spec fn ai_moved(world: World, dt: u32, draw: u32) -> World {
        let (paddle, transform) = ai_paddle_after(
            world.right.paddle,
            world.right.transform,
            world.ball,
            world.ball_transform,
            world.window,
            dt,
            world.config,
            draw,
        );
        World {
            right: RightPaddleEntity { paddle, transform, ..world.right },
            ..world
        }
    }

    /// The playfield before the rules of a frame look at it: everything
    /// has moved, the right paddle last.
    pub open spec fn moved(world: World, keyboard: Keys, dt: u32, launch_draw: u32, ai_draw: u32) -> World {
        Self::ai_moved(world.moved(keyboard, dt, launch_draw), dt, ai_draw)
    }

    /// Lays out the playfield for a new game. Returns it with the dashes
    /// of the net.
    pub fn enter(window: Window, config: Config) -> (made: (World, Vec<Transform>))
        requires
            config.sprite_unit_size > 0,
        ensures
            exists|draw: u32| made.0 == World::at_start(window, config, draw),
            made.1@ == net_dashes(window, config),
            config.speeds_in_order() && config.game_1v1_score_to_win >= 1 ==> made.0.wf(),
    {
        setup_world(window, config)
    }

    /// Plays one frame of `dt` microseconds: the ball is held or served,
    /// the left paddle moves by its keys, the ball moves, the computer
    /// moves the right paddle, and then the rules look at the playfield.
    pub fn update(world: &mut World, keyboard: &Keys, dt: u32) -> (frame: Frame)
        requires
            old(world).has_room_for_a_point(),
            ai_can_draw(old(world).right.transform),
        ensures
            exists|launch_draw: u32, ai_draw: u32|
                {
                    let moved = #[trigger] Self::moved(
                        *old(world),
                        *keyboard,
                        dt,
                        launch_draw,
                        ai_draw,
                    );
                    &&& *final(world) == moved.ruled()
                    &&& frame.reports(
                        moved,
                        *keyboard,
                        GameState::Mode1P,
                        old(world).served().launches(*keyboard),
                    )
                },
            old(world).wf() ==> final(world).wf() && final(world).ball.speed >= old(world).ball.speed,
            old(world).wf() && old(world).paddles_in_bounds() ==> final(world).paddles_in_bounds(),
    {
        let launched: bool = run_move_systems(world, keyboard, dt);
        let ghost launch_draw: u32 = choose|launch_draw: u32|
            *world == old(world).moved(*keyboard, dt, launch_draw);
        let ghost before = *world;
        move_right_paddle_with_ai_system(
            &mut world.right.paddle,
            &mut world.right.transform,
            &world.ball,
            &world.ball_transform,
            &world.window,
            dt,
            &world.config,
        );
        let ghost ai_draw: u32 = choose|ai_draw: u32|
            (world.right.paddle, world.right.transform) == ai_paddle_after(
                before.right.paddle,
                before.right.transform,
                before.ball,
                before.ball_transform,
                before.window,
                dt,
                before.config,
                ai_draw,
            );
        proof {
            if old(world).wf() {
                law_frame_1p_keeps_world_sound(*old(world), *keyboard, dt, launch_draw, ai_draw);
            }
        }
        run_rule_systems(world, keyboard, GameState::Mode1P, launched)
    }
}

} // verus!
