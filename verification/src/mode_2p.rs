//! Two players, one at each paddle.

use crate::components::RightPaddle;
use crate::components::Transform;
use crate::components::Window;
use crate::config::Config;
use crate::input::key_direction;
use crate::input::key_direction_exec;
use crate::input::Keys;
use crate::laws::law_frame_2p_keeps_world_sound;
use crate::state::GameState;
use crate::systems_1v1::net_dashes;
use crate::systems_generic::move_paddle;
use crate::systems_generic::paddle_bound;
use crate::systems_generic::paddle_y_after;
use crate::world::run_move_systems;
use crate::world::run_rule_systems;
use crate::world::setup_world;
use crate::world::Frame;
use crate::world::World;
use vstd::prelude::*;

verus! {

/// Moves the right paddle by its keys, `p` for up and `l` for down, and
/// holds it inside the playfield.
pub fn move_right_paddle_with_keyboard_system(
    paddle: &RightPaddle,
    transform: &mut Transform,
    keyboard: &Keys,
    window: &Window,
    dt: u32,
    config: &Config,
)
    ensures
        final(transform).translation.y == paddle_y_after(
            old(transform).translation.y as int,
            key_direction(keyboard.p, keyboard.l),
            paddle.speed as int,
            dt as int,
            paddle_bound(*window, *config, *old(transform)),
        ),
        final(transform).translation.x == old(transform).translation.x,
        final(transform).scale == old(transform).scale,
        0 <= paddle_bound(*window, *config, *old(transform)) ==> -paddle_bound(
            *window,
            *config,
            *old(transform),
        ) <= final(transform).translation.y <= paddle_bound(*window, *config, *old(transform)),
{
    let direction: i32 = key_direction_exec(keyboard.p, keyboard.l);
    move_paddle(transform, direction, paddle.speed, window, dt, config);
}

/// The game of two players.
pub struct Mode2PPlugin;

impl Mode2PPlugin {
    /// The playfield before the rules of a frame look at it: everything
    /// has moved, the right paddle last.
    pub open spec fn moved(world: World, keyboard: Keys, dt: u32, launch_draw: u32) -> World {
        world.moved(keyboard, dt, launch_draw).right_moved(keyboard, dt)
    }

    /// Lays out the playfield for a new game. Returns it with the dashes
    /// of the net.
    pub fn enter(window: Window, config: Config) -> (made: (World, Vec<Transform>))
        requires
            config.sprite_unit_size > 0,
        ensures
            exists|draw: u32| made.0 == World::at_start(window, config, draw),
            made.1@ == net_dashes(window, config),
            config.speeds_in_order() && config.game_1v1_score_to_win >= 1 ==> made.0.wf(),
    {
        setup_world(window, config)
    }

    /// Plays one frame of `dt` microseconds: the ball is held or served,
    /// the left paddle moves by its keys, the ball moves, the right paddle
    /// moves by its keys, and then the rules look at the playfield.
    pub fn update(world: &mut World, keyboard: &Keys, dt: u32) -> (frame: Frame)
        requires
            old(world).has_room_for_a_point(),
        ensures
            exists|launch_draw: u32|
                {
                    let moved = #[trigger] Self::moved(*old(world), *keyboard, dt, launch_draw);
                    &&& *final(world) == moved.ruled()
                    &&& frame.reports(
                        moved,
                        *keyboard,
                        GameState::Mode2P,
                        old(world).served().launches(*keyboard),
                    )
                },
            old(world).wf() ==> final(world).wf() && final(world).ball.speed >= old(world).ball.speed,
            old(world).wf() && old(world).paddles_in_bounds() ==> final(world).paddles_in_bounds(),
    {
        let launched: bool = run_move_systems(world, keyboard, dt);
        let ghost launch_draw: u32 = choose|launch_draw: u32|
            *world == old(world).moved(*keyboard, dt, launch_draw);
        move_right_paddle_with_keyboard_system(
            &world.right.paddle,
            &mut world.right.transform,
            keyboard,
            &world.window,
            dt,
            &world.config,
        );
        assert(*world == Self::moved(*old(world), *keyboard, dt, launch_draw));
        proof {
            if old(world).wf() {
                law_frame_2p_keeps_world_sound(*old(world), *keyboard, dt, launch_draw);
            }
        }
        run_rule_systems(world, keyboard, GameState::Mode2P, launched)
    }
}

} // verus!
