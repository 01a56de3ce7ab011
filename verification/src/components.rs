//! The records that make up a game: sides, vectors, footprints, the ball, the
//! paddles and the running score.

use crate::fixed::half;
use vstd::prelude::*;

verus! {

/// One of the two player slots, and with it one of the two goal lines.
#[derive(Clone, Copy, Debug, PartialEq, Eq, Structural)]
pub enum Side {
    Left,
    Right,
}

impl Side {
    /// The side across the net.
    pub open spec fn spec_opposite(self) -> Side {
        match self {
            Side::Left => Side::Right,
            Side::Right => Side::Left,
        }
    }

    /// The side across the net.
    #[verifier::when_used_as_spec(spec_opposite)]
    pub fn opposite(self) -> (other: Side)
        ensures
            other == self.spec_opposite(),
    {
        match self {
            Side::Left => Side::Right,
            Side::Right => Side::Left,
        }
    }
}

impl Default for Side {
    fn default() -> (side: Side)
        ensures
            side == Side::Left,
    {
        Side::Left
    }
}

/// A pair of coordinates: a position, a full extent or a velocity.
#[derive(Clone, Copy, Debug, PartialEq, Eq, Structural)]
pub struct Vector2 {
    pub x: i32,
    pub y: i32,
}

impl Vector2 {
    /// The vector with both coordinates zero.
    pub open spec fn spec_zero() -> Vector2 {
        Vector2 { x: 0, y: 0 }
    }

    /// The vector with both coordinates zero.
    #[verifier::when_used_as_spec(spec_zero)]
    pub fn zero() -> (v: Vector2)
        ensures
            v == Vector2::spec_zero(),
    {
        Vector2 { x: 0, y: 0 }
    }

    /// Whether both coordinates are zero.
    pub open spec fn spec_is_zero(self) -> bool {
        self.x == 0 && self.y == 0
    }

    /// Whether both coordinates are zero.
    #[verifier::when_used_as_spec(spec_is_zero)]
    pub fn is_zero(self) -> (zero: bool)
        ensures
            zero == self.spec_is_zero(),
    {
        self.x == 0 && self.y == 0
    }

    /// The square of the vector's length.
    pub open spec fn length_squared(self) -> int {
        self.x * self.x + self.y * self.y
    }
}

/// A rectangular footprint: `translation` is its centre, `scale` its full
/// width and height.
#[derive(Clone, Copy, Debug, PartialEq, Eq, Structural)]
pub struct Transform {
    pub translation: Vector2,
    pub scale: Vector2,
}

impl Transform {
    /// Half of the width.
    pub open spec fn half_width(self) -> int {
        half(self.scale.x as int)
    }

    /// Half of the height.
    pub open spec fn half_height(self) -> int {
        half(self.scale.y as int)
    }

    /// The x coordinate of the left edge.
    pub open spec fn left(self) -> int {
        self.translation.x - self.half_width()
    }

    /// The x coordinate of the right edge.
    pub open spec fn right(self) -> int {
        self.translation.x + self.half_width()
    }

    /// The y coordinate of the lower edge.
    pub open spec fn bottom(self) -> int {
        self.translation.y - self.half_height()
    }

    /// The y coordinate of the upper edge.
    pub open spec fn top(self) -> int {
        self.translation.y + self.half_height()
    }
}

/// What the ball can run into.
#[derive(Clone, Copy, Debug, PartialEq, Eq, Structural)]
pub enum Collider {
    Paddle,
    Wall,
}

/// The ball: `speed` is the length its velocity is given when it is struck
/// or served, `velocity` is zero while it rests.
#[derive(Clone, Copy, Debug, PartialEq, Eq, Structural)]
pub struct Ball {
    pub speed: i32,
    pub velocity: Vector2,
}

impl Ball {
    /// Whether the ball moves no faster than its speed allows: its velocity
    /// is no longer than `speed`.
    pub open spec fn within_speed(self) -> bool {
        self.speed >= 0 && self.velocity.length_squared() <= self.speed * self.speed
    }
}

/// The paddle of the left player.
#[derive(Clone, Copy, Debug, PartialEq, Eq, Structural)]
pub struct LeftPaddle {
    pub speed: i32,
}

/// The paddle of the right player. `velocity` is a scratch value of the
/// computer player, `speed` is used when a person plays.
#[derive(Clone, Copy, Debug, PartialEq, Eq, Structural)]
pub struct RightPaddle {
    pub velocity: Vector2,
    pub speed: i32,
}

/// The left paddle on the playfield: its footprint, and whether it holds
/// the ball for the serve.
#[derive(Clone, Copy, Debug, PartialEq, Eq, Structural)]
pub struct LeftPaddleEntity {
    pub paddle: LeftPaddle,
    pub transform: Transform,
    pub service: bool,
}

/// The right paddle on the playfield: its footprint, and whether it holds
/// the ball for the serve.
#[derive(Clone, Copy, Debug, PartialEq, Eq, Structural)]
pub struct RightPaddleEntity {
    pub paddle: RightPaddle,
    pub transform: Transform,
    pub service: bool,
}

/// The paddle that serves: the one that holds the ball while the other does
/// not. Where neither or both hold it, nobody serves.
pub open spec fn serving_side(left_service: bool, right_service: bool) -> Option<Side> {
    if left_service && !right_service {
        Some(Side::Left)
    } else if right_service && !left_service {
        Some(Side::Right)
    } else {
        None
    }
}

/// Computes [`serving_side`].
pub fn serving_side_exec(left_service: bool, right_service: bool) -> (side: Option<Side>)
    ensures
        side == serving_side(left_service, right_service),
{
    if left_service && !right_service {
        Some(Side::Left)
    } else if right_service && !left_service {
        Some(Side::Right)
    } else {
        None
    }
}

/// The state of a game between two sides.
#[derive(Clone, Copy, Debug, PartialEq, Eq, Structural)]
pub struct GameData {
    pub left_score: u32,
    pub right_score: u32,
    pub starting_side: Side,
    pub game_over: Option<Side>,
}

impl GameData {
    /// The points of `side`.
    pub open spec fn points_of(self, side: Side) -> u32 {
        match side {
            Side::Left => self.left_score,
            Side::Right => self.right_score,
        }
    }

    /// Whether the scores and the winner agree with a game that is won with
    /// `score_to_win` points: while nobody has won, both sides have fewer
    /// points; after that, the winner has exactly that many and the other
    /// side fewer.
    pub open spec fn settled(self, score_to_win: u32) -> bool {
        match self.game_over {
            None => self.left_score < score_to_win && self.right_score < score_to_win,
            Some(winner) => {
                &&& self.points_of(winner) == score_to_win
                &&& self.points_of(winner.opposite()) < score_to_win
            },
        }
    }
}

impl Default for GameData {
    fn default() -> (data: GameData)
        ensures
            data == (GameData {
                left_score: 0,
                right_score: 0,
                starting_side: Side::Left,
                game_over: None,
            }),
    {
        GameData { left_score: 0, right_score: 0, starting_side: Side::Left, game_over: None }
    }
}

/// The size of the playfield.
#[derive(Clone, Copy, Debug, PartialEq, Eq, Structural)]
pub struct Window {
    pub width: i32,
    pub height: i32,
}

} // verus!
