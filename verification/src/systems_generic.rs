//! The stages of a frame that every way to play shares: moving the left
//! paddle and the ball, resolving a collision, noticing a ball that is out,
//! and going back to the menu.

use crate::collision::collision_side;
use crate::collision::first_overlap_from;
use crate::collision::overlaps_exec;
use crate::collision::resolve;
use crate::collision::resolve_collision;
use crate::collision::struck;
use crate::collision::Collision;
use crate::collision::Obstacle;
use crate::components::Ball;
use crate::components::Collider;
use crate::components::GameData;
use crate::components::LeftPaddle;
use crate::components::Side;
use crate::components::Transform;
use crate::components::Vector2;
use crate::components::Window;
use crate::config::Config;
use crate::events::BallHitPaddleEvent;
use crate::events::BallOutEvent;
use crate::fixed::half;
use crate::fixed::half_exec;
use crate::fixed::saturate;
use crate::fixed::saturate_i64;
use crate::fixed::travel;
use crate::fixed::travel_exec;
use crate::input::key_direction;
use crate::input::key_direction_exec;
use crate::input::Keys;
use crate::state::GameState;
use vstd::prelude::*;

verus! {

/// How far from the middle line the centre of a paddle may be: half the
/// height of the playfield, less the thickness of a wall, less half the
/// height of the paddle.
pub open spec fn paddle_bound(window: Window, config: Config, paddle: Transform) -> int {
    half(window.height as int) - config.sprite_unit_size - paddle.half_height()
}

/// `y` brought down to `bound` and then up to `-bound`.
pub open spec fn clamp_to_bound(y: int, bound: int) -> int {
    let low = if y < bound {
        y
    } else {
        bound
    };
    if low > -bound {
        low
    } else {
        -bound
    }
}

/// The height of a paddle's centre after it has gone `direction` times the
/// way that `speed` covers in `dt` microseconds and has been held inside
/// `bound`.
pub open spec fn paddle_y_after(y: int, direction: int, speed: int, dt: int, bound: int) -> int {
    saturate(clamp_to_bound(y + direction * travel(speed, dt), bound))
}

/// Computes [`paddle_bound`].
pub fn paddle_bound_exec(window: &Window, config: &Config, paddle: &Transform) -> (bound: i64)
    ensures
        bound == paddle_bound(*window, *config, *paddle),
{
    half_exec(window.height) as i64 - config.sprite_unit_size as i64 - half_exec(
        paddle.scale.y,
    ) as i64
}

/// Moves the centre of a paddle up or down and holds it inside the
/// playfield. `direction` is `1`, `0` or `-1`.
pub fn move_paddle(
    transform: &mut Transform,
    direction: i32,
    speed: i32,
    window: &Window,
    dt: u32,
    config: &Config,
)
    requires
        -1 <= direction <= 1,
    ensures
        final(transform).translation.y == paddle_y_after(
            old(transform).translation.y as int,
            direction as int,
            speed as int,
            dt as int,
            paddle_bound(*window, *config, *old(transform)),
        ),
        final(transform).translation.x == old(transform).translation.x,
        final(transform).scale == old(transform).scale,
        0 <= paddle_bound(*window, *config, *old(transform)) ==> -paddle_bound(
            *window,
            *config,
            *old(transform),
        ) <= final(transform).translation.y <= paddle_bound(*window, *config, *old(transform)),
{
    let bound: i64 = paddle_bound_exec(window, config, transform);
    let step: i64 = travel_exec(speed, dt);
    let way: i64 = if direction == 1 {
        step
    } else if direction == 0 {
        0
    } else {
        -step
    };
    assert(way == direction * travel(speed as int, dt as int)) by (nonlinear_arith)
        requires
            step == travel(speed as int, dt as int),
            -1 <= direction <= 1,
            way == (if direction == 1 {
                step as int
            } else if direction == 0 {
                0
            } else {
                -step
            }),
    ;
    let y: i64 = transform.translation.y as i64 + way;
    let low: i64 = if y < bound {
        y
    } else {
        bound
    };
    let held: i64 = if low > -bound {
        low
    } else {
        -bound
    };
    transform.translation.y = saturate_i64(held);
}

/// Moves the left paddle by its keys, `s` for up and `x` for down, and holds
/// it inside the playfield.
pub fn move_left_paddle_with_keyboard_system(
    paddle: &LeftPaddle,
    transform: &mut Transform,
    keyboard: &Keys,
    window: &Window,
    dt: u32,
    config: &Config,
)
    ensures
        final(transform).translation.y == paddle_y_after(
            old(transform).translation.y as int,
            key_direction(keyboard.s, keyboard.x),
            paddle.speed as int,
            dt as int,
            paddle_bound(*window, *config, *old(transform)),
        ),
        final(transform).translation.x == old(transform).translation.x,
        final(transform).scale == old(transform).scale,
        0 <= paddle_bound(*window, *config, *old(transform)) ==> -paddle_bound(
            *window,
            *config,
            *old(transform),
        ) <= final(transform).translation.y <= paddle_bound(*window, *config, *old(transform)),
{
    let direction: i32 = key_direction_exec(keyboard.s, keyboard.x);
    move_paddle(transform, direction, paddle.speed, window, dt, config);
}

/// Where the ball is after `dt` microseconds of straight flight. A ball at
/// rest stays where it is.
pub open spec fn ball_after_move(ball: Ball, transform: Transform, dt: int) -> Transform {
    Transform {
        translation: Vector2 {
            x: saturate(transform.translation.x + travel(ball.velocity.x as int, dt)) as i32,
            y: saturate(transform.translation.y + travel(ball.velocity.y as int, dt)) as i32,
        },
        scale: transform.scale,
    }
}

/// Moves the ball along its velocity for `dt` microseconds, without looking
/// at what is in its way.
pub fn move_ball_system(ball: &Ball, transform: &mut Transform, dt: u32)
    ensures
        *final(transform) == ball_after_move(*ball, *old(transform), dt as int),
{
    if ball.velocity.x != 0 || ball.velocity.y != 0 {
        let x: i64 = transform.translation.x as i64 + travel_exec(ball.velocity.x, dt);
        let y: i64 = transform.translation.y as i64 + travel_exec(ball.velocity.y, dt);
        transform.translation.x = saturate_i64(x);
        transform.translation.y = saturate_i64(y);
    }
}

/// What a resolved collision was with: the place of the collider in the
/// list, and the face that the ball struck.
#[derive(Clone, Copy, Debug, PartialEq, Eq, Structural)]
pub struct Hit {
    pub index: usize,
    pub side: Collision,
}

/// Looks for the first collider that the moving ball overlaps. If there is
/// one, the ball is set back to the point of contact and sent on its way, a
/// paddle among the colliders is reported by one event, and the collider
/// and the struck face are returned. One collision at most is resolved in a
/// frame; a ball at rest collides with nothing.
pub fn check_ball_collision_system(
    ball: &mut Ball,
    ball_transform: &mut Transform,
    ball_hit_paddle_event: &mut Vec<BallHitPaddleEvent>,
    colliders: &Vec<Obstacle>,
    config: &Config,
) -> (hit: Option<Hit>)
    ensures
        match struck(*old(ball), *old(ball_transform), colliders@) {
            None => {
                &&& hit is None
                &&& *final(ball) == *old(ball)
                &&& *final(ball_transform) == *old(ball_transform)
                &&& final(ball_hit_paddle_event)@ == old(ball_hit_paddle_event)@
            },
            Some(i) => {
                &&& 0 <= i < colliders.len()
                &&& hit == Some(
                    Hit {
                        index: i as usize,
                        side: collision_side(
                            *old(ball_transform),
                            old(ball).velocity,
                            colliders[i].transform,
                        ),
                    },
                )
                &&& (*final(ball), *final(ball_transform)) == resolve(
                    *old(ball),
                    *old(ball_transform),
                    colliders[i],
                    *config,
                )
                &&& final(ball_hit_paddle_event)@ == if colliders[i].collider == Collider::Paddle {
                    old(ball_hit_paddle_event)@.push(BallHitPaddleEvent())
                } else {
                    old(ball_hit_paddle_event)@
                }
            },
        },
        config.speeds_in_order() && old(ball).speed <= config.game_ball_speed_max ==> old(
            ball,
        ).speed <= final(ball).speed <= config.game_ball_speed_max,
{
    if ball.velocity.is_zero() {
        return None;
    }
    let mut i: usize = 0;
    while i < colliders.len()
        invariant
            0 <= i <= colliders.len(),
            !ball.velocity.is_zero(),
            *ball == *old(ball),
            *ball_transform == *old(ball_transform),
            *ball_hit_paddle_event == *old(ball_hit_paddle_event),
            first_overlap_from(*ball_transform, colliders@, 0) == first_overlap_from(
                *ball_transform,
                colliders@,
                i as int,
            ),
        decreases colliders.len() - i,
    {
        let obstacle: Obstacle = colliders[i];
        if overlaps_exec(ball_transform, &obstacle.transform) {
            let side: Collision = resolve_collision(ball, ball_transform, &obstacle, config);
            match obstacle.collider {
                Collider::Paddle => {
                    ball_hit_paddle_event.push(BallHitPaddleEvent());
                },
                Collider::Wall => {},
            }
            return Some(Hit { index: i, side });
        }
        i = i + 1;
    }
    None
}

/// The goal line behind which the centre of the ball lies, if it lies
/// behind one: the left one if it is more than the margin to the left of
/// the playfield, the right one if it is more than the margin to the right.
pub open spec fn ball_out_side(x: int, window: Window, config: Config) -> Option<Side> {
    if x < -half(window.width as int) - config.game_ball_oob_x {
        Some(Side::Left)
    } else if x > half(window.width as int) + config.game_ball_oob_x {
        Some(Side::Right)
    } else {
        None
    }
}

/// Reports a ball that has left the playfield by one event that names the
/// goal line it crossed. Nothing is reported once the game is over.
pub fn check_ball_out_system(
    ball_out_event: &mut Vec<BallOutEvent>,
    ball_transform: &Transform,
    window: &Window,
    config: &Config,
    game_data: &GameData,
)
    ensures
        final(ball_out_event)@ == match ball_out_side(
            ball_transform.translation.x as int,
            *window,
            *config,
        ) {
            Some(side) if game_data.game_over is None => old(ball_out_event)@.push(
                BallOutEvent(side),
            ),
            _ => old(ball_out_event)@,
        },
{
    if game_data.game_over.is_some() {
        return ;
    }
    let x: i64 = ball_transform.translation.x as i64;
    let half_width: i64 = half_exec(window.width) as i64;
    let margin: i64 = config.game_ball_oob_x as i64;
    if x < -half_width - margin {
        ball_out_event.push(BallOutEvent(Side::Left));
    } else if x > half_width + margin {
        ball_out_event.push(BallOutEvent(Side::Right));
    }
}

/// The screen after the back key: the menu if it was let go, else the
/// screen that was showing.
pub fn back_to_menu_system(state: GameState, keyboard: &Keys) -> (next: GameState)
    ensures
        next == if keyboard.escape_released {
            GameState::Menu
        } else {
            state
        },
{
    if keyboard.escape_released {
        GameState::Menu
    } else {
        state
    }
}

} // verus!
