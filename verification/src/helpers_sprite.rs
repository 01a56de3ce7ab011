//! The footprints of the things on the playfield, from the size of the
//! window and the size of one sprite unit. The middle of the window is the
//! origin, x grows to the right and y grows upwards.

use crate::components::Transform;
use crate::components::Vector2;
use crate::fixed::half;
use crate::fixed::half_exec;
use crate::fixed::saturate;
use crate::fixed::saturate_i64;
use vstd::prelude::*;

verus! {

/// The wall along the upper edge: as wide as the window, one unit thick.
pub open spec fn top_wall_sprite(window_width: i32, window_height: i32, unit_size: i32) -> Transform {
    Transform {
        translation: Vector2 {
            x: 0,
            y: saturate(half(window_height as int) - half(unit_size as int)) as i32,
        },
        scale: Vector2 { x: window_width, y: unit_size },
    }
}

/// The wall along the lower edge: as wide as the window, one unit thick.
pub open spec fn bottom_wall_sprite(window_width: i32, window_height: i32, unit_size: i32) -> Transform {
    Transform {
        translation: Vector2 {
            x: 0,
            y: saturate(-half(window_height as int) + half(unit_size as int)) as i32,
        },
        scale: Vector2 { x: window_width, y: unit_size },
    }
}

/// The wall along the right edge, which the solo game plays against: one
/// unit thick, as high as the window.
pub open spec fn right_wall_sprite(window_width: i32, window_height: i32, unit_size: i32) -> Transform {
    Transform {
        translation: Vector2 {
            x: saturate(half(window_width as int) - half(unit_size as int)) as i32,
            y: 0,
        },
        scale: Vector2 { x: unit_size, y: window_height },
    }
}

/// The left paddle: one unit from the left edge, one unit wide, four high.
pub open spec fn left_paddle_sprite(window_width: i32, unit_size: i32) -> Transform {
    Transform {
        translation: Vector2 {
            x: saturate(-half(window_width as int) + half(unit_size as int) + unit_size) as i32,
            y: 0,
        },
        scale: Vector2 { x: unit_size, y: saturate(unit_size * 4) as i32 },
    }
}

/// The right paddle: one unit from the right edge, one unit wide, four high.
pub open spec fn right_paddle_sprite(window_width: i32, unit_size: i32) -> Transform {
    Transform {
        translation: Vector2 {
            x: saturate(half(window_width as int) - half(unit_size as int) - unit_size) as i32,
            y: 0,
        },
        scale: Vector2 { x: unit_size, y: saturate(unit_size * 4) as i32 },
    }
}

/// The ball: one unit wide and high, with its centre at `position`.
pub open spec fn ball_sprite(unit_size: i32, position: Vector2) -> Transform {
    Transform { translation: position, scale: Vector2 { x: unit_size, y: unit_size } }
}

/// One dash of the net: on the middle line at height `pos_y`, one unit
/// wide, two high.
pub open spec fn net_sprite(pos_y: i32, unit_size: i32) -> Transform {
    Transform {
        translation: Vector2 { x: 0, y: pos_y },
        scale: Vector2 { x: unit_size, y: saturate(unit_size * 2) as i32 },
    }
}

/// Makes the footprint of the upper wall.
#[verifier::when_used_as_spec(top_wall_sprite)]
pub fn create_top_wall_sprite(window_width: i32, window_height: i32, unit_size: i32) -> (sprite:
    Transform)
    ensures
        sprite == top_wall_sprite(window_width, window_height, unit_size),
{
    let y: i64 = half_exec(window_height) as i64 - half_exec(unit_size) as i64;
    Transform {
        translation: Vector2 { x: 0, y: saturate_i64(y) },
        scale: Vector2 { x: window_width, y: unit_size },
    }
}

/// Makes the footprint of the lower wall.
#[verifier::when_used_as_spec(bottom_wall_sprite)]
pub fn create_bottom_wall_sprite(window_width: i32, window_height: i32, unit_size: i32) -> (sprite:
    Transform)
    ensures
        sprite == bottom_wall_sprite(window_width, window_height, unit_size),
{
    let y: i64 = -(half_exec(window_height) as i64) + half_exec(unit_size) as i64;
    Transform {
        translation: Vector2 { x: 0, y: saturate_i64(y) },
        scale: Vector2 { x: window_width, y: unit_size },
    }
}

/// Makes the footprint of the right wall.
#[verifier::when_used_as_spec(right_wall_sprite)]
pub fn create_right_wall_sprite(window_width: i32, window_height: i32, unit_size: i32) -> (sprite:
    Transform)
    ensures
        sprite == right_wall_sprite(window_width, window_height, unit_size),
{
    let x: i64 = half_exec(window_width) as i64 - half_exec(unit_size) as i64;
    Transform {
        translation: Vector2 { x: saturate_i64(x), y: 0 },
        scale: Vector2 { x: unit_size, y: window_height },
    }
}

/// Makes the footprint of the left paddle.
#[verifier::when_used_as_spec(left_paddle_sprite)]
pub fn create_left_paddle_sprite(window_width: i32, unit_size: i32) -> (sprite: Transform)
    ensures
        sprite == left_paddle_sprite(window_width, unit_size),
{
    let x: i64 = -(half_exec(window_width) as i64) + half_exec(unit_size) as i64 + unit_size as i64;
    Transform {
        translation: Vector2 { x: saturate_i64(x), y: 0 },
        scale: Vector2 { x: unit_size, y: saturate_i64(unit_size as i64 * 4) },
    }
}

/// Makes the footprint of the right paddle.
#[verifier::when_used_as_spec(right_paddle_sprite)]
pub fn create_right_paddle_sprite(window_width: i32, unit_size: i32) -> (sprite: Transform)
    ensures
        sprite == right_paddle_sprite(window_width, unit_size),
{
    let x: i64 = half_exec(window_width) as i64 - half_exec(unit_size) as i64 - unit_size as i64;
    Transform {
        translation: Vector2 { x: saturate_i64(x), y: 0 },
        scale: Vector2 { x: unit_size, y: saturate_i64(unit_size as i64 * 4) },
    }
}

/// Makes the footprint of the ball.
#[verifier::when_used_as_spec(ball_sprite)]
pub fn create_ball_sprite(unit_size: i32, position: Vector2) -> (sprite: Transform)
    ensures
        sprite == ball_sprite(unit_size, position),
{
    Transform { translation: position, scale: Vector2 { x: unit_size, y: unit_size } }
}

/// Makes the footprint of one dash of the net.
#[verifier::when_used_as_spec(net_sprite)]
pub fn create_net_sprite(pos_y: i32, unit_size: i32) -> (sprite: Transform)
    ensures
        sprite == net_sprite(pos_y, unit_size),
{
    Transform {
        translation: Vector2 { x: 0, y: pos_y },
        scale: Vector2 { x: unit_size, y: saturate_i64(unit_size as i64 * 2) },
    }
}

} // verus!
