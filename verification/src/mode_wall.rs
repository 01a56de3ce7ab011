//! One player against a wall: the right side of the court is closed, every
//! return with the paddle is a point, and the game ends when the ball gets
//! past the paddle.

use crate::chance::random_u32;
use crate::collision::collision_side;
use crate::collision::resolve;
use crate::collision::struck;
use crate::collision::Obstacle;
use crate::components::Ball;
use crate::components::Collider;
use crate::components::GameData;
use crate::components::LeftPaddle;
use crate::components::LeftPaddleEntity;
use crate::components::Side;
use crate::components::Transform;
use crate::components::Vector2;
use crate::components::Window;
use crate::config::Config;
use crate::events::BallHitPaddleEvent;
use crate::events::BallOutEvent;
use crate::events::GameOverEvent;
use crate::fixed::PIXEL;
use crate::helpers_sprite::create_ball_sprite;
use crate::helpers_sprite::create_bottom_wall_sprite;
use crate::helpers_sprite::create_left_paddle_sprite;
use crate::helpers_sprite::create_right_wall_sprite;
use crate::helpers_sprite::create_top_wall_sprite;
use crate::input::key_direction;
use crate::input::Keys;
use crate::laws::law_frame_wall_keeps_world_sound;
use crate::state::GameState;
use crate::systems_1v1::launch_velocity;
use crate::systems_1v1::launch_velocity_exec;
use crate::systems_generic::back_to_menu_system;
use crate::systems_generic::ball_after_move;
use crate::systems_generic::ball_out_side;
use crate::systems_generic::check_ball_collision_system;
use crate::systems_generic::check_ball_out_system;
use crate::systems_generic::move_ball_system;
use crate::systems_generic::move_left_paddle_with_keyboard_system;
use crate::systems_generic::paddle_bound;
use crate::systems_generic::paddle_y_after;
use crate::systems_generic::Hit;
use vstd::prelude::*;

verus! {

/// Where the ball of the solo game lies before its first serve.
pub const BALL_START_X: i32 = -128 * PIXEL;

/// Where the ball of the solo game lies before its first serve.
pub const BALL_START_Y: i32 = -80 * PIXEL;

/// The state at the start of a solo game: no points, and nothing lost yet.
/// What the state holds for a game between two sides stays as it is.
pub open spec fn game_data_at_start(game_data: GameData) -> GameData {
    GameData { left_score: 0, game_over: None, ..game_data }
}

/// Starts a solo game over.
pub fn reset_game_data_system(game_data: &mut GameData)
    ensures
        *final(game_data) == game_data_at_start(*old(game_data)),
{
    game_data.left_score = 0;
    game_data.game_over = None;
}

/// The court of the solo game: walls above, below and on the right.
#[derive(Clone, Copy, Debug, PartialEq, Eq, Structural)]
pub struct Court {
    pub top_wall: Obstacle,
    pub bottom_wall: Obstacle,
    pub right_wall: Obstacle,
}

/// Lays out the court of the solo game.
pub fn setup_court_system(window: &Window, config: &Config) -> (court: Court)
    ensures
        court == (Court {
            top_wall: Obstacle {
                collider: Collider::Wall,
                transform: create_top_wall_sprite(
                    window.width,
                    window.height,
                    config.sprite_unit_size,
                ),
            },
            bottom_wall: Obstacle {
                collider: Collider::Wall,
                transform: create_bottom_wall_sprite(
                    window.width,
                    window.height,
                    config.sprite_unit_size,
                ),
            },
            right_wall: Obstacle {
                collider: Collider::Wall,
                transform: create_right_wall_sprite(
                    window.width,
                    window.height,
                    config.sprite_unit_size,
                ),
            },
        }),
{
    let unit: i32 = config.sprite_unit_size;
    Court {
        top_wall: Obstacle {
            collider: Collider::Wall,
            transform: create_top_wall_sprite(window.width, window.height, unit),
        },
        bottom_wall: Obstacle {
            collider: Collider::Wall,
            transform: create_bottom_wall_sprite(window.width, window.height, unit),
        },
        right_wall: Obstacle {
            collider: Collider::Wall,
            transform: create_right_wall_sprite(window.width, window.height, unit),
        },
    }
}

/// The paddle at the start of a solo game. It is the one to serve.
pub fn setup_left_paddle_system(window: &Window, config: &Config) -> (entity: LeftPaddleEntity)
    ensures
        entity == (LeftPaddleEntity {
            paddle: LeftPaddle { speed: config.game_paddle_speed },
            transform: create_left_paddle_sprite(window.width, config.sprite_unit_size),
            service: true,
        }),
{
    LeftPaddleEntity {
        paddle: LeftPaddle { speed: config.game_paddle_speed },
        transform: create_left_paddle_sprite(window.width, config.sprite_unit_size),
        service: true,
    }
}

/// The ball at the start of a solo game: at rest, left of and below the
/// middle, with the first speed.
pub fn setup_ball_system(config: &Config) -> (entity: (Ball, Transform))
    ensures
        entity.0 == (Ball { speed: config.game_ball_speed_min, velocity: Vector2::zero() }),
        entity.1 == create_ball_sprite(
            config.sprite_unit_size,
            Vector2 { x: BALL_START_X, y: BALL_START_Y },
        ),
{
    (
        Ball { speed: config.game_ball_speed_min, velocity: Vector2::zero() },
        create_ball_sprite(config.sprite_unit_size, Vector2 { x: BALL_START_X, y: BALL_START_Y }),
    )
}

/// Whether a launch is accepted: nothing is lost yet, the launch key was
/// let go, and the paddle holds the serve.
pub open spec fn launch_accepted(service: bool, keyboard: Keys, game_data: GameData) -> bool {
    &&& game_data.game_over is None
    &&& keyboard.space_released
    &&& service
}

/// Serves with a given draw. An accepted launch sends the ball to the
/// right, up or down by the draw, and takes the serve from the paddle; any
/// other launch changes nothing. Returns whether the launch was accepted.
pub fn launch_ball(
    ball: &mut Ball,
    left: &mut LeftPaddleEntity,
    keyboard: &Keys,
    game_data: &GameData,
    draw: u32,
) -> (launched: bool)
    ensures
        launched == launch_accepted(old(left).service, *keyboard, *game_data),
        launched ==> {
            &&& final(ball).velocity == launch_velocity(Side::Left, draw, old(ball).speed as int)
            &&& final(ball).speed == old(ball).speed
            &&& *final(left) == (LeftPaddleEntity { service: false, ..*old(left) })
        },
        !launched ==> *final(ball) == *old(ball) && *final(left) == *old(left),
{
    if game_data.game_over.is_some() || !keyboard.space_released || !left.service {
        return false;
    }
    ball.velocity = launch_velocity_exec(Side::Left, draw, ball.speed);
    left.service = false;
    true
}

/// Serves when the launch key was let go: to the right, up or down by
/// chance. See [`launch_ball`] for what a launch does.
pub fn launch_ball_system(
    ball: &mut Ball,
    left: &mut LeftPaddleEntity,
    keyboard: &Keys,
    game_data: &GameData,
) -> (launched: bool)
    ensures
        launched == launch_accepted(old(left).service, *keyboard, *game_data),
        launched ==> {
            &&& exists|draw: u32|
                final(ball).velocity == launch_velocity(Side::Left, draw, old(ball).speed as int)
            &&& final(ball).speed == old(ball).speed
            &&& *final(left) == (LeftPaddleEntity { service: false, ..*old(left) })
        },
        !launched ==> *final(ball) == *old(ball) && *final(left) == *old(left),
{
    if game_data.game_over.is_some() || !keyboard.space_released || !left.service {
        return false;
    }
    let draw: u32 = random_u32();
    launch_ball(ball, left, keyboard, game_data, draw)
}

/// The state after a point is given for each of `hits` returns with the
/// paddle. Once the game is lost, no more points are given.
pub open spec fn scores_after(game_data: GameData, hits: nat) -> GameData {
    if game_data.game_over is Some {
        game_data
    } else {
        GameData { left_score: (game_data.left_score + hits) as u32, ..game_data }
    }
}

/// Gives a point for every return with the paddle. The score must have
/// room for them.
pub fn increment_score_system(
    ball_hit_paddle_event: &Vec<BallHitPaddleEvent>,
    game_data: &mut GameData,
)
    requires
        old(game_data).game_over is None ==> old(game_data).left_score + ball_hit_paddle_event.len()
            <= u32::MAX,
    ensures
        *final(game_data) == scores_after(*old(game_data), ball_hit_paddle_event.len() as nat),
{
    if game_data.game_over.is_some() {
        return ;
    }
    let mut i: usize = 0;
    while i < ball_hit_paddle_event.len()
        invariant
            0 <= i <= ball_hit_paddle_event.len(),
            old(game_data).game_over is None,
            old(game_data).left_score + ball_hit_paddle_event.len() <= u32::MAX,
            *game_data == scores_after(*old(game_data), i as nat),
        decreases ball_hit_paddle_event.len() - i,
    {
        game_data.left_score = game_data.left_score + 1;
        i = i + 1;
    }
}

/// Whether `events` lose the game: nothing was lost before, and a ball
/// went out.
pub open spec fn ends_game(game_data: GameData, events: Seq<BallOutEvent>) -> bool {
    game_data.game_over is None && events.len() > 0
}

/// The state after the balls of `events` went out: the first of them loses
/// the game, which goes to the right side.
pub open spec fn game_data_after(game_data: GameData, events: Seq<BallOutEvent>) -> GameData {
    if ends_game(game_data, events) {
        GameData { game_over: Some(Side::Right), ..game_data }
    } else {
        game_data
    }
}

/// Ends the game when the ball went out, and announces the end once.
pub fn check_game_over_system(
    ball_out_event: &Vec<BallOutEvent>,
    game_over_event: &mut Vec<GameOverEvent>,
    game_data: &mut GameData,
)
    ensures
        *final(game_data) == game_data_after(*old(game_data), ball_out_event@),
        final(game_over_event)@ == if ends_game(*old(game_data), ball_out_event@) {
            old(game_over_event)@.push(GameOverEvent(Side::Right))
        } else {
            old(game_over_event)@
        },
{
    if game_data.game_over.is_some() {
        return ;
    }
    if ball_out_event.len() > 0 {
        game_data.game_over = Some(Side::Right);
        game_over_event.push(GameOverEvent(Side::Right));
    }
}

/// Whether to show that the game is over: it is once an end was announced.
pub fn game_over_system(game_over_event: &Vec<GameOverEvent>) -> (shown: bool)
    ensures
        shown == (game_over_event.len() > 0),
{
    game_over_event.len() > 0
}

/// Everything on the playfield of the solo game.
#[derive(Clone, Copy, Debug, PartialEq, Eq, Structural)]
pub struct World {
    pub window: Window,
    pub config: Config,
    pub game_data: GameData,
    pub top_wall: Transform,
    pub bottom_wall: Transform,
    pub right_wall: Transform,
    pub ball: Ball,
    pub ball_transform: Transform,
    pub left: LeftPaddleEntity,
}

/// What one frame of the solo game has to tell: the events of its stages,
/// in lists that hold one event at most, and what came of them.
#[derive(Debug)]
pub struct Frame {
    /// Whether the ball was served.
    pub launched: bool,
    /// The collision that was resolved.
    pub hit: Option<Hit>,
    pub ball_hit_paddle: Vec<BallHitPaddleEvent>,
    pub ball_out: Vec<BallOutEvent>,
    pub game_over: Vec<GameOverEvent>,
    /// Whether to show that the game is over.
    pub game_over_shown: bool,
    /// The screen to show after this frame.
    pub state: GameState,
}

impl World {
    /// The playfield at the start of a solo game that takes over the state
    /// `game_data`.
    pub open spec fn at_start(window: Window, config: Config, game_data: GameData) -> World {
        World {
            window,
            config,
            game_data: game_data_at_start(game_data),
            top_wall: create_top_wall_sprite(window.width, window.height, config.sprite_unit_size),
            bottom_wall: create_bottom_wall_sprite(
                window.width,
                window.height,
                config.sprite_unit_size,
            ),
            right_wall: create_right_wall_sprite(
                window.width,
                window.height,
                config.sprite_unit_size,
            ),
            ball: Ball { speed: config.game_ball_speed_min, velocity: Vector2::zero() },
            ball_transform: create_ball_sprite(
                config.sprite_unit_size,
                Vector2 { x: BALL_START_X, y: BALL_START_Y },
            ),
            left: LeftPaddleEntity {
                paddle: LeftPaddle { speed: config.game_paddle_speed },
                transform: create_left_paddle_sprite(window.width, config.sprite_unit_size),
                service: true,
            },
        }
    }

    /// What the ball can collide with, in the order in which a frame looks
    /// at it: upper wall, lower wall, right wall, paddle.
    pub open spec fn colliders(self) -> Seq<Obstacle> {
        seq![
            Obstacle { collider: Collider::Wall, transform: self.top_wall },
            Obstacle { collider: Collider::Wall, transform: self.bottom_wall },
            Obstacle { collider: Collider::Wall, transform: self.right_wall },
            Obstacle { collider: Collider::Paddle, transform: self.left.transform },
        ]
    }

    /// Whether these keys serve the ball.
    pub open spec fn launches(self, keyboard: Keys) -> bool {
        launch_accepted(self.left.service, keyboard, self.game_data)
    }

    /// The playfield after the launch key was looked at.
    pub open spec fn launched(self, keyboard: Keys, draw: u32) -> World {
        if self.launches(keyboard) {
            World {
                ball: Ball {
                    velocity: launch_velocity(Side::Left, draw, self.ball.speed as int),
                    ..self.ball
                },
                left: LeftPaddleEntity { service: false, ..self.left },
                ..self
            }
        } else {
            self
        }
    }

    /// The playfield after the paddle has moved by its keys.
    pub open spec fn left_moved(self, keyboard: Keys, dt: u32) -> World {
        World {
            left: LeftPaddleEntity {
                transform: Transform {
                    translation: Vector2 {
                        x: self.left.transform.translation.x,
                        y: paddle_y_after(
                            self.left.transform.translation.y as int,
                            key_direction(keyboard.s, keyboard.x),
                            self.left.paddle.speed as int,
                            dt as int,
                            paddle_bound(self.window, self.config, self.left.transform),
                        ) as i32,
                    },
                    scale: self.left.transform.scale,
                },
                ..self.left
            },
            ..self
        }
    }

    /// The playfield after the ball has moved.
    pub open spec fn ball_moved(self, dt: u32) -> World {
        World { ball_transform: ball_after_move(self.ball, self.ball_transform, dt as int), ..self }
    }

    /// The playfield after the first half of a frame: the launch, the
    /// paddle, the ball.
    pub open spec fn moved(self, keyboard: Keys, dt: u32, launch_draw: u32) -> World {
        self.launched(keyboard, launch_draw).left_moved(keyboard, dt).ball_moved(dt)
    }

    /// The collision that a frame resolves.
    pub open spec fn hit(self) -> Option<Hit> {
        match struck(self.ball, self.ball_transform, self.colliders()) {
            None => None,
            Some(i) => Some(
                Hit {
                    index: i as usize,
                    side: collision_side(
                        self.ball_transform,
                        self.ball.velocity,
                        self.colliders()[i].transform,
                    ),
                },
            ),
        }
    }

    /// The paddle hits that a frame reports.
    pub open spec fn paddle_hits(self) -> Seq<BallHitPaddleEvent> {
        match struck(self.ball, self.ball_transform, self.colliders()) {
            Some(i) if self.colliders()[i].collider == Collider::Paddle => seq![BallHitPaddleEvent()],
            _ => Seq::empty(),
        }
    }

    /// The playfield after the collision of a frame was resolved.
    pub open spec fn collided(self) -> World {
        match struck(self.ball, self.ball_transform, self.colliders()) {
            None => self,
            Some(i) => {
                let (ball, ball_transform) = resolve(
                    self.ball,
                    self.ball_transform,
                    self.colliders()[i],
                    self.config,
                );
                World { ball, ball_transform, ..self }
            },
        }
    }

    /// The balls that a frame reports as out.
    pub open spec fn balls_out(self) -> Seq<BallOutEvent> {
        match ball_out_side(self.ball_transform.translation.x as int, self.window, self.config) {
            Some(side) if self.game_data.game_over is None => seq![BallOutEvent(side)],
            _ => Seq::empty(),
        }
    }

    /// The playfield after the second half of a frame: the collision, the
    /// point for a return with the paddle, and the end of the game for a
    /// ball that is out.
    pub open spec fn ruled(self) -> World {
        let after = self.collided();
        World {
            game_data: game_data_after(
                scores_after(after.game_data, self.paddle_hits().len()),
                after.balls_out(),
            ),
            ..after
        }
    }

    /// Whether the playfield is one that a solo game can reach with
    /// settings that are in order: the speed of the ball lies between the
    /// first and the greatest speed, and the ball moves no faster than its
    /// speed.
    pub open spec fn wf(self) -> bool {
        &&& self.config.speeds_in_order()
        &&& self.config.game_ball_speed_min <= self.ball.speed <= self.config.game_ball_speed_max
        &&& self.ball.within_speed()
    }

    /// Whether the paddle lies inside the playfield.
    pub open spec fn paddle_in_bounds(self) -> bool {
        let bound = paddle_bound(self.window, self.config, self.left.transform);
        -bound <= self.left.transform.translation.y <= bound
    }

    /// Whether the score can take one more point.
    pub open spec fn has_room_for_a_point(self) -> bool {
        self.game_data.left_score < u32::MAX
    }
}

impl Frame {
    /// Whether this is the report of the second half of a frame that began
    /// on `world`.
    pub open spec fn reports(self, world: World, keyboard: Keys, launched: bool) -> bool {
        let after = world.collided();
        &&& self.launched == launched
        &&& self.hit == world.hit()
        &&& self.ball_hit_paddle@ == world.paddle_hits()
        &&& self.ball_out@ == after.balls_out()
        &&& self.game_over@ == if ends_game(
            scores_after(after.game_data, world.paddle_hits().len()),
            after.balls_out(),
        ) {
            seq![GameOverEvent(Side::Right)]
        } else {
            Seq::empty()
        }
        &&& self.game_over_shown == (self.game_over.len() > 0)
        &&& self.state == if keyboard.escape_released {
            GameState::Menu
        } else {
            GameState::ModeWall
        }
    }
}

/// The solo game against the wall.
pub struct ModeWallPlugin;

impl ModeWallPlugin {
    /// Lays out the playfield for a new solo game that takes over the state
    /// `game_data`.
    pub fn enter(window: Window, config: Config, game_data: GameData) -> (world: World)
        ensures
            world == World::at_start(window, config, game_data),
            config.speeds_in_order() ==> world.wf(),
    {
        let mut game_data: GameData = game_data;
        reset_game_data_system(&mut game_data);
        let court: Court = setup_court_system(&window, &config);
        let left: LeftPaddleEntity = setup_left_paddle_system(&window, &config);
        let (ball, ball_transform) = setup_ball_system(&config);
        World {
            window,
            config,
            game_data,
            top_wall: court.top_wall.transform,
            bottom_wall: court.bottom_wall.transform,
            right_wall: court.right_wall.transform,
            ball,
            ball_transform,
            left,
        }
    }

    /// Plays one frame of `dt` microseconds: the launch key is looked at,
    /// the paddle moves by its keys, the ball moves, and then the rules
    /// look at the playfield.
    pub fn update(world: &mut World, keyboard: &Keys, dt: u32) -> (frame: Frame)
        requires
            old(world).has_room_for_a_point(),
        ensures
            exists|launch_draw: u32|
                {
                    let moved = #[trigger] old(world).moved(*keyboard, dt, launch_draw);
                    &&& *final(world) == moved.ruled()
                    &&& frame.reports(moved, *keyboard, old(world).launches(*keyboard))
                },
            old(world).wf() ==> final(world).wf() && final(world).ball.speed >= old(world).ball.speed,
            0 <= paddle_bound(old(world).window, old(world).config, old(world).left.transform)
                ==> final(world).paddle_in_bounds(),
    {
        let launched: bool = launch_ball_system(
            &mut world.ball,
            &mut world.left,
            keyboard,
            &world.game_data,
        );
        let ghost launch_draw: u32 = if launched {
            choose|draw: u32|
                world.ball.velocity == launch_velocity(Side::Left, draw, old(world).ball.speed as int)
        } else {
            0
        };
        move_left_paddle_with_keyboard_system(
            &world.left.paddle,
            &mut world.left.transform,
            keyboard,
            &world.window,
            dt,
            &world.config,
        );
        move_ball_system(&world.ball, &mut world.ball_transform, dt);
        proof {
            law_frame_wall_keeps_world_sound(*old(world), *keyboard, dt, launch_draw);
        }
        let mut colliders: Vec<Obstacle> = Vec::new();
        colliders.push(Obstacle { collider: Collider::Wall, transform: world.top_wall });
        colliders.push(Obstacle { collider: Collider::Wall, transform: world.bottom_wall });
        colliders.push(Obstacle { collider: Collider::Wall, transform: world.right_wall });
        colliders.push(Obstacle { collider: Collider::Paddle, transform: world.left.transform });
        assert(colliders@ =~= world.colliders());
        let mut ball_hit_paddle: Vec<BallHitPaddleEvent> = Vec::new();
        let hit: Option<Hit> = check_ball_collision_system(
            &mut world.ball,
            &mut world.ball_transform,
            &mut ball_hit_paddle,
            &colliders,
            &world.config,
        );
        let mut ball_out: Vec<BallOutEvent> = Vec::new();
        check_ball_out_system(
            &mut ball_out,
            &world.ball_transform,
            &world.window,
            &world.config,
            &world.game_data,
        );
        increment_score_system(&ball_hit_paddle, &mut world.game_data);
        let mut game_over: Vec<GameOverEvent> = Vec::new();
        check_game_over_system(&ball_out, &mut game_over, &mut world.game_data);
        let game_over_shown: bool = game_over_system(&game_over);
        let state: GameState = back_to_menu_system(GameState::ModeWall, keyboard);
        Frame { launched, hit, ball_hit_paddle, ball_out, game_over, game_over_shown, state }
    }
}

} // verus!
