//! Collision of the moving ball with the footprints of walls and paddles: the
//! test for contact, the axis on which the ball arrived, the face it struck,
//! the point where it struck, and its velocity afterwards.

use crate::components::Ball;
use crate::components::Collider;
use crate::components::Transform;
use crate::components::Vector2;
use crate::config::Config;
use crate::fixed::aim_component;
use crate::fixed::aim_component_exec;
use crate::fixed::half_exec;
use crate::fixed::lemma_trunc_div_bound;
use crate::fixed::lemma_trunc_div_cancels;
use crate::fixed::saturate;
use crate::fixed::saturate_i128;
use crate::fixed::saturate_i64;
use crate::fixed::trunc_div;
use vstd::prelude::*;

verus! {

/// The face of a collider that the ball has struck, named by the sign of the
/// way back to it: `Left` and `Top` where the ball has to go back against a
/// positive velocity, `Right` and `Bottom` otherwise.
#[derive(Clone, Copy, Debug, PartialEq, Eq, Structural)]
pub enum Collision {
    Left,
    Right,
    Top,
    Bottom,
}

/// A wall or a paddle together with its footprint.
#[derive(Clone, Copy, Debug, PartialEq, Eq, Structural)]
pub struct Obstacle {
    pub collider: Collider,
    pub transform: Transform,
}

/// Whether the footprint of the ball and another footprint share an area.
/// Footprints that only touch do not overlap.
pub open spec fn overlaps(ball: Transform, other: Transform) -> bool {
    !(ball.left() >= other.right() || ball.right() <= other.left() || ball.bottom()
        >= other.top() || ball.top() <= other.bottom())
}

/// How far the ball has to move along x to be back at the edge that it
/// crossed first: the left edge of `other` if it moves right, else the right
/// edge.
pub open spec fn x_to_collision(ball: Transform, velocity: Vector2, other: Transform) -> int {
    if velocity.x > 0 {
        other.left() - ball.right()
    } else {
        other.right() - ball.left()
    }
}

/// How far the ball has to move along y to be back at the edge that it
/// crossed first: the lower edge of `other` if it moves up, else the upper
/// edge.
pub open spec fn y_to_collision(ball: Transform, velocity: Vector2, other: Transform) -> int {
    if velocity.y > 0 {
        other.bottom() - ball.top()
    } else {
        other.top() - ball.bottom()
    }
}

/// Whether the fraction `n1 / d1` is greater than the fraction `n2 / d2`,
/// for denominators other than zero.
pub open spec fn later(n1: int, d1: int, n2: int, d2: int) -> bool {
    if (d1 > 0) == (d2 > 0) {
        n1 * d2 > n2 * d1
    } else {
        n1 * d2 < n2 * d1
    }
}

/// Whether the ball met `other` on the x axis: the time of contact on x,
/// `x_to_collision / velocity.x`, is later than the one on y. An axis
/// along which the ball does not move has no time of contact and never
/// binds before the other; where both times are equal, y binds.
pub open spec fn x_axis_binds(ball: Transform, velocity: Vector2, other: Transform) -> bool {
    &&& velocity.x != 0
    &&& velocity.y != 0 ==> later(
        x_to_collision(ball, velocity, other),
        velocity.x as int,
        y_to_collision(ball, velocity, other),
        velocity.y as int,
    )
}

/// The face of `other` that the ball struck.
pub open spec fn collision_side(ball: Transform, velocity: Vector2, other: Transform) -> Collision {
    if x_axis_binds(ball, velocity, other) {
        if x_to_collision(ball, velocity, other) < 0 {
            Collision::Left
        } else {
            Collision::Right
        }
    } else {
        if y_to_collision(ball, velocity, other) < 0 {
            Collision::Top
        } else {
            Collision::Bottom
        }
    }
}

/// When the ball met `other`, as a fraction of a second counted from now:
/// the way back along the axis that binds, over the velocity along it.
pub open spec fn collision_time(ball: Transform, velocity: Vector2, other: Transform) -> (int, int) {
    if x_axis_binds(ball, velocity, other) {
        (x_to_collision(ball, velocity, other), velocity.x as int)
    } else {
        (y_to_collision(ball, velocity, other), velocity.y as int)
    }
}

/// Where the centre of the ball was when it struck `other`: where it is
/// now, and along each axis the velocity times the time of contact,
/// rounded towards zero. Along the axis that binds this is the whole way
/// back to the edge.
pub open spec fn collision_point(ball: Transform, velocity: Vector2, other: Transform) -> Vector2 {
    let (n, d) = collision_time(ball, velocity, other);
    Vector2 {
        x: saturate(ball.translation.x + trunc_div(velocity.x * n, d)) as i32,
        y: saturate(ball.translation.y + trunc_div(velocity.y * n, d)) as i32,
    }
}

/// Along the axis that binds, the ball is set back by the whole way to the
/// edge.
pub proof fn lemma_collision_point_on_binding_axis(ball: Transform, velocity: Vector2, other: Transform)
    requires
        !velocity.is_zero(),
    ensures
        x_axis_binds(ball, velocity, other) ==> collision_point(ball, velocity, other).x == saturate(
            ball.translation.x + x_to_collision(ball, velocity, other),
        ),
        !x_axis_binds(ball, velocity, other) ==> collision_point(ball, velocity, other).y
            == saturate(ball.translation.y + y_to_collision(ball, velocity, other)),
{
    if x_axis_binds(ball, velocity, other) {
        lemma_trunc_div_cancels(x_to_collision(ball, velocity, other), velocity.x as int);
    } else {
        lemma_trunc_div_cancels(y_to_collision(ball, velocity, other), velocity.y as int);
    }
}

/// The velocity after a plain bounce: the coordinate across the struck face
/// changes its sign.
pub open spec fn bounce(velocity: Vector2, side: Collision) -> Vector2 {
    match side {
        Collision::Left | Collision::Right => Vector2 {
            x: saturate(-velocity.x) as i32,
            y: velocity.y,
        },
        Collision::Top | Collision::Bottom => Vector2 {
            x: velocity.x,
            y: saturate(-velocity.y) as i32,
        },
    }
}

/// The direction in which the front of a paddle sends the ball back: away
/// from the paddle along x, and along y by twice the hit factor, which is
/// the height of the ball above the paddle's centre over the paddle's
/// height. Both coordinates are scaled by the paddle's height.
pub open spec fn paddle_return_direction(ball_y: int, velocity: Vector2, paddle: Transform) -> (
    int,
    int,
) {
    (
        if velocity.x > 0 {
            -(paddle.scale.y as int)
        } else {
            paddle.scale.y as int
        },
        2 * (ball_y - paddle.translation.y),
    )
}

/// The velocity with which the front of a paddle sends the ball back: as
/// long as `speed`, in the direction of [`paddle_return_direction`].
pub open spec fn paddle_return(ball_y: int, velocity: Vector2, speed: int, paddle: Transform) -> Vector2 {
    let (dx, dy) = paddle_return_direction(ball_y, velocity, paddle);
    Vector2 { x: aim_component(dx, dy, speed) as i32, y: aim_component(dy, dx, speed) as i32 }
}

/// The speed of the ball after the front of a paddle has struck it: raised
/// by the configured step, but not beyond the configured greatest speed. A
/// ball that is already that fast keeps its speed.
pub open spec fn raised_speed(speed: int, config: Config) -> int {
    if config.game_ball_speed_max > speed {
        let raised = speed + config.game_ball_speed_incr;
        saturate(
            if raised < config.game_ball_speed_max {
                raised
            } else {
                config.game_ball_speed_max as int
            },
        )
    } else {
        speed
    }
}

/// Whether the paddle itself answers a hit on `side`: it does so on its left
/// and right faces.
pub open spec fn is_paddle_face(side: Collision) -> bool {
    side == Collision::Left || side == Collision::Right
}

/// The ball and its footprint after a moving ball that overlaps `obstacle`
/// has been set back to the point of contact and sent on its way.
pub open spec fn resolve(ball: Ball, ball_transform: Transform, obstacle: Obstacle, config: Config) -> (
    Ball,
    Transform,
) {
    let side = collision_side(ball_transform, ball.velocity, obstacle.transform);
    let point = collision_point(ball_transform, ball.velocity, obstacle.transform);
    let moved = Transform { translation: point, scale: ball_transform.scale };
    if obstacle.collider == Collider::Paddle && is_paddle_face(side) {
        (
            Ball {
                speed: raised_speed(ball.speed as int, config) as i32,
                velocity: paddle_return(point.y as int, ball.velocity, ball.speed as int, obstacle.transform),
            },
            moved,
        )
    } else {
        (Ball { speed: ball.speed, velocity: bounce(ball.velocity, side) }, moved)
    }
}

/// The index of the first of `colliders`, from `from` on, that the ball
/// overlaps.
pub open spec fn first_overlap_from(ball: Transform, colliders: Seq<Obstacle>, from: int) -> Option<int>
    decreases colliders.len() - from,
{
    if from < 0 || from >= colliders.len() {
        None
    } else if overlaps(ball, colliders[from].transform) {
        Some(from)
    } else {
        first_overlap_from(ball, colliders, from + 1)
    }
}

/// The index of the collider that a frame resolves: the first that the ball
/// overlaps, and none while the ball is at rest.
pub open spec fn struck(ball: Ball, ball_transform: Transform, colliders: Seq<Obstacle>) -> Option<int> {
    if ball.velocity.is_zero() {
        None
    } else {
        first_overlap_from(ball_transform, colliders, 0)
    }
}

/// The four edges of a footprint: left, right, bottom, top.
fn edges(t: &Transform) -> (e: (i64, i64, i64, i64))
    ensures
        e.0 == t.left(),
        e.1 == t.right(),
        e.2 == t.bottom(),
        e.3 == t.top(),
{
    let hw: i64 = half_exec(t.scale.x) as i64;
    let hh: i64 = half_exec(t.scale.y) as i64;
    let x: i64 = t.translation.x as i64;
    let y: i64 = t.translation.y as i64;
    (x - hw, x + hw, y - hh, y + hh)
}

/// Computes [`overlaps`].
pub fn overlaps_exec(ball: &Transform, other: &Transform) -> (hit: bool)
    ensures
        hit == overlaps(*ball, *other),
{
    let (bl, br, bb, bt) = edges(ball);
    let (ol, or, ob, ot) = edges(other);
    !(bl >= or || br <= ol || bb >= ot || bt <= ob)
}

/// The face that a moving ball struck on `other`, and the point where its
/// centre was at that moment.
pub fn collide(ball: &Transform, velocity: Vector2, other: &Transform) -> (contact: (Collision, Vector2))
    requires
        !velocity.is_zero(),
    ensures
        contact.0 == collision_side(*ball, velocity, *other),
        contact.1 == collision_point(*ball, velocity, *other),
{
    let (bl, br, bb, bt) = edges(ball);
    let (ol, or, ob, ot) = edges(other);
    let x_to: i64 = if velocity.x > 0 {
        ol - br
    } else {
        or - bl
    };
    let y_to: i64 = if velocity.y > 0 {
        ob - bt
    } else {
        ot - bb
    };
    let vx: i128 = velocity.x as i128;
    let vy: i128 = velocity.y as i128;
    let xt: i128 = x_to as i128;
    let yt: i128 = y_to as i128;
    assert(-0x2_0000_0000 * 0x8000_0000 <= xt * vy <= 0x2_0000_0000 * 0x8000_0000)
        by (nonlinear_arith)
        requires
            -0x2_0000_0000 <= xt <= 0x2_0000_0000,
            -0x8000_0000 <= vy <= 0x8000_0000,
    ;
    assert(-0x2_0000_0000 * 0x8000_0000 <= yt * vx <= 0x2_0000_0000 * 0x8000_0000)
        by (nonlinear_arith)
        requires
            -0x2_0000_0000 <= yt <= 0x2_0000_0000,
            -0x8000_0000 <= vx <= 0x8000_0000,
    ;
    let x_binds: bool = if velocity.x == 0 {
        false
    } else if velocity.y == 0 {
        true
    } else if (velocity.x > 0) == (velocity.y > 0) {
        xt * vy > yt * vx
    } else {
        xt * vy < yt * vx
    };
    let bx: i128 = ball.translation.x as i128;
    let by: i128 = ball.translation.y as i128;
    proof {
        lemma_collision_point_on_binding_axis(*ball, velocity, *other);
    }
    if x_binds {
        let side: Collision = if x_to < 0 {
            Collision::Left
        } else {
            Collision::Right
        };
        proof {
            lemma_trunc_div_bound(vy * xt, vx as int);
        }
        let back: i128 = (vy * xt) / vx;
        (side, Vector2 { x: saturate_i128(bx + xt), y: saturate_i128(by + back) })
    } else {
        let side: Collision = if y_to < 0 {
            Collision::Top
        } else {
            Collision::Bottom
        };
        proof {
            lemma_trunc_div_bound(vx * yt, vy as int);
        }
        let back: i128 = (vx * yt) / vy;
        (side, Vector2 { x: saturate_i128(bx + back), y: saturate_i128(by + y_to as i128) })
    }
}

/// Computes [`bounce`].
pub fn bounce_exec(velocity: Vector2, side: Collision) -> (after: Vector2)
    ensures
        after == bounce(velocity, side),
{
    match side {
        Collision::Left | Collision::Right => Vector2 {
            x: saturate_i64(-(velocity.x as i64)),
            y: velocity.y,
        },
        Collision::Top | Collision::Bottom => Vector2 {
            x: velocity.x,
            y: saturate_i64(-(velocity.y as i64)),
        },
    }
}

/// Computes [`paddle_return`].
pub fn paddle_return_exec(ball_y: i32, velocity: Vector2, speed: i32, paddle: &Transform) -> (after: Vector2)
    ensures
        after == paddle_return(ball_y as int, velocity, speed as int, *paddle),
{
    let height: i64 = paddle.scale.y as i64;
    let dx: i64 = if velocity.x > 0 {
        -height
    } else {
        height
    };
    let dy: i64 = 2 * (ball_y as i64 - paddle.translation.y as i64);
    Vector2 { x: aim_component_exec(dx, dy, speed), y: aim_component_exec(dy, dx, speed) }
}

/// Computes [`raised_speed`].
pub fn raised_speed_exec(speed: i32, config: &Config) -> (after: i32)
    ensures
        after == raised_speed(speed as int, *config),
{
    if config.game_ball_speed_max > speed {
        let raised: i64 = speed as i64 + config.game_ball_speed_incr as i64;
        if raised < config.game_ball_speed_max as i64 {
            saturate_i64(raised)
        } else {
            config.game_ball_speed_max
        }
    } else {
        speed
    }
}

/// Sets a moving ball that overlaps `obstacle` back to the point of contact
/// and gives it its velocity after the hit; the front of a paddle also
/// raises its speed. Returns the face that was struck.
pub fn resolve_collision(
    ball: &mut Ball,
    ball_transform: &mut Transform,
    obstacle: &Obstacle,
    config: &Config,
) -> (side: Collision)
    requires
        !old(ball).velocity.is_zero(),
    ensures
        side == collision_side(*old(ball_transform), old(ball).velocity, obstacle.transform),
        (*final(ball), *final(ball_transform)) == resolve(
            *old(ball),
            *old(ball_transform),
            *obstacle,
            *config,
        ),
{
    let velocity: Vector2 = ball.velocity;
    let (side, point) = collide(ball_transform, velocity, &obstacle.transform);
    ball_transform.translation = point;
    let answered: bool = match obstacle.collider {
        Collider::Paddle => match side {
            Collision::Left | Collision::Right => true,
            _ => false,
        },
        Collider::Wall => false,
    };
    if answered {
        ball.velocity = paddle_return_exec(point.y, velocity, ball.speed, &obstacle.transform);
        ball.speed = raised_speed_exec(ball.speed, config);
    } else {
        ball.velocity = bounce_exec(velocity, side);
    }
    side
}

} // verus!
