//! The settings of a game.

use crate::fixed::PIXEL;
use vstd::prelude::*;

verus! {

/// The settings that the rules read. Lengths are in world units, speeds in
/// world units per second.
#[derive(Clone, Copy, Debug, PartialEq, Eq, Structural)]
pub struct Config {
    /// How fast a paddle moves.
    pub game_paddle_speed: i32,
    /// The speed of the ball at its first serve.
    pub game_ball_speed_min: i32,
    /// The speed that the ball never passes.
    pub game_ball_speed_max: i32,
    /// What a paddle's face adds to the speed of the ball.
    pub game_ball_speed_incr: i32,
    /// How far behind a goal line the ball counts as out.
    pub game_ball_oob_x: i32,
    /// The score that wins a game between two sides.
    pub game_1v1_score_to_win: u32,
    /// The thickness of the walls and the size of the ball.
    pub sprite_unit_size: i32,
}

impl Config {
    /// The settings of the standard game.
    pub open spec fn standard() -> Config {
        Config {
            game_paddle_speed: 409_600,
            game_ball_speed_min: 512_000,
            game_ball_speed_max: 768_000,
            game_ball_speed_incr: 5_120,
            game_ball_oob_x: 204_800,
            game_1v1_score_to_win: 9,
            sprite_unit_size: 16_384,
        }
    }

    /// Whether the speeds of the ball are in order: none negative, and the
    /// first speed no greater than the greatest.
    pub open spec fn speeds_in_order(self) -> bool {
        &&& 0 <= self.game_ball_speed_min <= self.game_ball_speed_max
        &&& 0 <= self.game_ball_speed_incr
    }
}

impl Default for Config {
    fn default() -> (config: Config)
        ensures
            config == Config::standard(),
            config.speeds_in_order(),
    {
        Config {
            game_paddle_speed: 400 * PIXEL,
            game_ball_speed_min: 500 * PIXEL,
            game_ball_speed_max: 750 * PIXEL,
            game_ball_speed_incr: 5 * PIXEL,
            game_ball_oob_x: 200 * PIXEL,
            game_1v1_score_to_win: 9,
            sprite_unit_size: 16 * PIXEL,
        }
    }
}

} // verus!
