//! The playfield of a game between two sides, and the two halves of a
//! frame that both such games share: first everything moves, then the rules
//! look at where things are.

use crate::collision::collision_side;
use crate::collision::resolve;
use crate::collision::struck;
use crate::collision::Obstacle;
use crate::components::serving_side;
use crate::components::Ball;
use crate::components::Collider;
use crate::components::GameData;
use crate::components::LeftPaddle;
use crate::components::LeftPaddleEntity;
use crate::components::RightPaddle;
use crate::components::RightPaddleEntity;
use crate::components::Side;
use crate::components::Transform;
use crate::components::Vector2;
use crate::components::Window;
use crate::config::Config;
use crate::events::BallHitPaddleEvent;
use crate::events::BallOutEvent;
use crate::events::GameOverEvent;
use crate::helpers_sprite::create_ball_sprite;
use crate::helpers_sprite::create_bottom_wall_sprite;
use crate::helpers_sprite::create_left_paddle_sprite;
use crate::helpers_sprite::create_right_paddle_sprite;
use crate::helpers_sprite::create_top_wall_sprite;
use crate::input::key_direction;
use crate::input::Keys;
use crate::laws::law_start_is_sound;
use crate::state::GameState;
use crate::systems_1v1::banner_for;
use crate::systems_1v1::check_game_over_system;
use crate::systems_1v1::game_data_at_start;
use crate::systems_1v1::game_over_system;
use crate::systems_1v1::increment_score_system;
use crate::systems_1v1::launch_accepted;
use crate::systems_1v1::launch_ball_system;
use crate::systems_1v1::launch_velocity;
use crate::systems_1v1::lemma_count_single;
use crate::systems_1v1::net_dashes;
use crate::systems_1v1::reset_game_data_system;
use crate::systems_1v1::rounds_after;
use crate::systems_1v1::scores_after;
use crate::systems_1v1::served_position;
use crate::systems_1v1::service_system;
use crate::systems_1v1::setup_ball_system;
use crate::systems_1v1::setup_court_system;
use crate::systems_1v1::setup_left_paddle_system;
use crate::systems_1v1::setup_right_paddle_system;
use crate::systems_1v1::Banner;
use crate::systems_1v1::Round;
use crate::systems_generic::back_to_menu_system;
use crate::systems_generic::ball_after_move;
use crate::systems_generic::ball_out_side;
use crate::systems_generic::check_ball_collision_system;
use crate::systems_generic::check_ball_out_system;
use crate::systems_generic::move_ball_system;
use crate::systems_generic::move_left_paddle_with_keyboard_system;
use crate::systems_generic::paddle_bound;
use crate::systems_generic::paddle_y_after;
use crate::systems_generic::Hit;
use vstd::prelude::*;

verus! {

/// Everything on the playfield of a game between two sides.
#[derive(Clone, Copy, Debug, PartialEq, Eq, Structural)]
pub struct World {
    pub window: Window,
    pub config: Config,
    pub game_data: GameData,
    pub top_wall: Transform,
    pub bottom_wall: Transform,
    pub ball: Ball,
    pub ball_transform: Transform,
    pub left: LeftPaddleEntity,
    pub right: RightPaddleEntity,
}

/// What one frame has to tell: the events of its stages, in lists that hold
/// one event at most, and what came of them.
#[derive(Debug)]
pub struct Frame {
    /// Whether the ball was served.
    pub launched: bool,
    /// The collision that was resolved.
    pub hit: Option<Hit>,
    pub ball_hit_paddle: Vec<BallHitPaddleEvent>,
    pub ball_out: Vec<BallOutEvent>,
    pub game_over: Vec<GameOverEvent>,
    /// What to tell the sides, if the game ended in this frame.
    pub banner: Option<Banner>,
    /// The screen to show after this frame.
    pub state: GameState,
}

impl World {
    /// The playfield at the start of a game, with the drawn number naming
    /// the side that serves first.
    pub open spec fn at_start(window: Window, config: Config, draw: u32) -> World {
        let game_data = game_data_at_start(draw);
        World {
            window,
            config,
            game_data,
            top_wall: create_top_wall_sprite(window.width, window.height, config.sprite_unit_size),
            bottom_wall: create_bottom_wall_sprite(
                window.width,
                window.height,
                config.sprite_unit_size,
            ),
            ball: Ball { speed: config.game_ball_speed_min, velocity: Vector2::zero() },
            ball_transform: create_ball_sprite(config.sprite_unit_size, Vector2::zero()),
            left: LeftPaddleEntity {
                paddle: LeftPaddle { speed: config.game_paddle_speed },
                transform: create_left_paddle_sprite(window.width, config.sprite_unit_size),
                service: game_data.starting_side == Side::Left,
            },
            right: RightPaddleEntity {
                paddle: RightPaddle { velocity: Vector2::zero(), speed: config.game_paddle_speed },
                transform: create_right_paddle_sprite(window.width, config.sprite_unit_size),
                service: game_data.starting_side == Side::Right,
            },
        }
    }

    /// What the ball can collide with, in the order in which a frame looks
    /// at it: upper wall, lower wall, left paddle, right paddle.
    pub open spec fn colliders(self) -> Seq<Obstacle> {
        seq![
            Obstacle { collider: Collider::Wall, transform: self.top_wall },
            Obstacle { collider: Collider::Wall, transform: self.bottom_wall },
            Obstacle { collider: Collider::Paddle, transform: self.left.transform },
            Obstacle { collider: Collider::Paddle, transform: self.right.transform },
        ]
    }

    /// The playfield with the ball held by the paddle that serves.
    pub open spec fn served(self) -> World {
        World {
            ball_transform: Transform {
                translation: match serving_side(self.left.service, self.right.service) {
                    Some(Side::Left) => served_position(Side::Left, self.left.transform),
                    Some(Side::Right) => served_position(Side::Right, self.right.transform),
                    None => self.ball_transform.translation,
                },
                scale: self.ball_transform.scale,
            },
            ..self
        }
    }

    /// Whether these keys serve the ball.
    pub open spec fn launches(self, keyboard: Keys) -> bool {
        launch_accepted(self.left.service, self.right.service, keyboard, self.game_data)
    }

    /// The playfield after the launch key was looked at.
    pub open spec fn launched(self, keyboard: Keys, draw: u32) -> World {
        if self.launches(keyboard) {
            World {
                ball: Ball {
                    velocity: launch_velocity(
                        serving_side(self.left.service, self.right.service)->0,
                        draw,
                        self.ball.speed as int,
                    ),
                    ..self.ball
                },
                left: LeftPaddleEntity { service: false, ..self.left },
                right: RightPaddleEntity { service: false, ..self.right },
                ..self
            }
        } else {
            self
        }
    }

    /// The playfield after the left paddle has moved by its keys.
    pub open spec fn left_moved(self, keyboard: Keys, dt: u32) -> World {
        World {
            left: LeftPaddleEntity {
                transform: Transform {
                    translation: Vector2 {
                        x: self.left.transform.translation.x,
                        y: paddle_y_after(
                            self.left.transform.translation.y as int,
                            key_direction(keyboard.s, keyboard.x),
                            self.left.paddle.speed as int,
                            dt as int,
                            paddle_bound(self.window, self.config, self.left.transform),
                        ) as i32,
                    },
                    scale: self.left.transform.scale,
                },
                ..self.left
            },
            ..self
        }
    }

    /// The playfield after the right paddle has moved by its keys.
    pub open spec fn right_moved(self, keyboard: Keys, dt: u32) -> World {
        World {
            right: RightPaddleEntity {
                transform: Transform {
                    translation: Vector2 {
                        x: self.right.transform.translation.x,
                        y: paddle_y_after(
                            self.right.transform.translation.y as int,
                            key_direction(keyboard.p, keyboard.l),
                            self.right.paddle.speed as int,
                            dt as int,
                            paddle_bound(self.window, self.config, self.right.transform),
                        ) as i32,
                    },
                    scale: self.right.transform.scale,
                },
                ..self.right
            },
            ..self
        }
    }

    /// The playfield after the ball has moved.
    pub open spec fn ball_moved(self, dt: u32) -> World {
        World { ball_transform: ball_after_move(self.ball, self.ball_transform, dt as int), ..self }
    }

    /// The playfield after the first half of a frame: the serve, the
    /// launch, the left paddle, the ball.
    pub open spec fn moved(self, keyboard: Keys, dt: u32, launch_draw: u32) -> World {
        self.served().launched(keyboard, launch_draw).left_moved(keyboard, dt).ball_moved(dt)
    }

    /// The collision that a frame resolves.
    pub open spec fn hit(self) -> Option<Hit> {
        match struck(self.ball, self.ball_transform, self.colliders()) {
            None => None,
            Some(i) => Some(
                Hit {
                    index: i as usize,
                    side: collision_side(
                        self.ball_transform,
                        self.ball.velocity,
                        self.colliders()[i].transform,
                    ),
                },
            ),
        }
    }

    /// The paddle hits that a frame reports.
    pub open spec fn paddle_hits(self) -> Seq<BallHitPaddleEvent> {
        match struck(self.ball, self.ball_transform, self.colliders()) {
            Some(i) if self.colliders()[i].collider == Collider::Paddle => seq![BallHitPaddleEvent()],
            _ => Seq::empty(),
        }
    }

    /// The playfield after the collision of a frame was resolved.
    pub open spec fn collided(self) -> World {
        match struck(self.ball, self.ball_transform, self.colliders()) {
            None => self,
            Some(i) => {
                let (ball, ball_transform) = resolve(
                    self.ball,
                    self.ball_transform,
                    self.colliders()[i],
                    self.config,
                );
                World { ball, ball_transform, ..self }
            },
        }
    }

    /// The balls that a frame reports as out.
    pub open spec fn balls_out(self) -> Seq<BallOutEvent> {
        match ball_out_side(self.ball_transform.translation.x as int, self.window, self.config) {
            Some(side) if self.game_data.game_over is None => seq![BallOutEvent(side)],
            _ => Seq::empty(),
        }
    }

    /// The ball, the paddles and the state of the game.
    pub open spec fn round(self) -> Round {
        Round { ball: self.ball, left: self.left, right: self.right, game_data: self.game_data }
    }

    /// The playfield with the points for `events` given.
    pub open spec fn points_given(self, events: Seq<BallOutEvent>) -> World {
        World { game_data: scores_after(self.game_data, events), ..self }
    }

    /// The playfield after the rallies of `events` were ended.
    pub open spec fn rallies_ended(self, events: Seq<BallOutEvent>) -> World {
        let round = rounds_after(self.round(), events, self.config).0;
        World {
            ball: round.ball,
            left: round.left,
            right: round.right,
            game_data: round.game_data,
            ..self
        }
    }

    /// The ends of the game that a frame announces for `events`.
    pub open spec fn game_overs(self, events: Seq<BallOutEvent>) -> Seq<GameOverEvent> {
        rounds_after(self.round(), events, self.config).1
    }

    /// The playfield after the second half of a frame: the collision, the
    /// ball that is out, the point, and the end of the rally or the game.
    pub open spec fn ruled(self) -> World {
        let after = self.collided();
        after.points_given(after.balls_out()).rallies_ended(after.balls_out())
    }

    /// Whether the playfield is one that a game can reach with settings
    /// that are in order: the speed of the ball lies between the first and
    /// the greatest speed, the ball moves no faster than its speed, one
    /// paddle at most holds the ball, and the scores agree with the winner.
    pub open spec fn wf(self) -> bool {
        &&& self.config.speeds_in_order()
        &&& self.config.game_1v1_score_to_win >= 1
        &&& self.config.game_ball_speed_min <= self.ball.speed <= self.config.game_ball_speed_max
        &&& self.ball.within_speed()
        &&& !(self.left.service && self.right.service)
        &&& self.game_data.settled(self.config.game_1v1_score_to_win)
    }

    /// Whether both paddles lie inside the playfield.
    pub open spec fn paddles_in_bounds(self) -> bool {
        let left = paddle_bound(self.window, self.config, self.left.transform);
        let right = paddle_bound(self.window, self.config, self.right.transform);
        &&& -left <= self.left.transform.translation.y <= left
        &&& -right <= self.right.transform.translation.y <= right
    }

    /// Whether both scores can take one more point.
    pub open spec fn has_room_for_a_point(self) -> bool {
        self.game_data.left_score < u32::MAX && self.game_data.right_score < u32::MAX
    }
}

impl Frame {
    /// Whether this is the report of the second half of a frame that began
    /// on `world`.
    pub open spec fn reports(self, world: World, keyboard: Keys, state: GameState, launched: bool) -> bool {
        let after = world.collided();
        &&& self.launched == launched
        &&& self.hit == world.hit()
        &&& self.ball_hit_paddle@ == world.paddle_hits()
        &&& self.ball_out@ == after.balls_out()
        &&& self.game_over@ == after.points_given(after.balls_out()).game_overs(after.balls_out())
        &&& self.banner == if self.game_over.len() == 0 {
            None
        } else {
            Some(banner_for(self.game_over[0].0))
        }
        &&& self.state == if keyboard.escape_released {
            GameState::Menu
        } else {
            state
        }
    }
}

/// Lays out the playfield for a new game between two sides. Returns it
/// with the dashes of the net.
pub fn setup_world(window: Window, config: Config) -> (made: (World, Vec<Transform>))
    requires
        config.sprite_unit_size > 0,
    ensures
        exists|draw: u32| made.0 == World::at_start(window, config, draw),
        made.1@ == net_dashes(window, config),
        config.speeds_in_order() && config.game_1v1_score_to_win >= 1 ==> made.0.wf(),
{
    let mut game_data: GameData = GameData::default();
    reset_game_data_system(&mut game_data);
    let court = setup_court_system(&window, &config);
    let left: LeftPaddleEntity = setup_left_paddle_system(&window, &config, &game_data);
    let right: RightPaddleEntity = setup_right_paddle_system(&window, &config, &game_data);
    let (ball, ball_transform) = setup_ball_system(&config);
    let world = World {
        window,
        config,
        game_data,
        top_wall: court.top_wall.transform,
        bottom_wall: court.bottom_wall.transform,
        ball,
        ball_transform,
        left,
        right,
    };
    proof {
        let draw = choose|draw: u32| game_data == game_data_at_start(draw);
        if config.speeds_in_order() && config.game_1v1_score_to_win >= 1 {
            law_start_is_sound(window, config, draw);
        }
    }
    (world, court.net)
}

/// The first half of a frame: the ball is held by the paddle that serves,
/// the launch key is looked at, the left paddle moves and the ball moves.
/// Returns whether the ball was served.
pub fn run_move_systems(world: &mut World, keyboard: &Keys, dt: u32) -> (launched: bool)
    ensures
        launched == old(world).served().launches(*keyboard),
        exists|launch_draw: u32| *final(world) == old(world).moved(*keyboard, dt, launch_draw),
{
    service_system(&mut world.ball_transform, &world.left, &world.right);
    let ghost served = *world;
    let launched: bool = launch_ball_system(
        &mut world.ball,
        &mut world.left,
        &mut world.right,
        keyboard,
        &world.game_data,
    );
    let ghost launch_draw: u32 = if launched {
        choose|draw: u32|
            world.ball.velocity == launch_velocity(
                serving_side(served.left.service, served.right.service)->0,
                draw,
                served.ball.speed as int,
            )
    } else {
        0
    };
    move_left_paddle_with_keyboard_system(
        &world.left.paddle,
        &mut world.left.transform,
        keyboard,
        &world.window,
        dt,
        &world.config,
    );
    move_ball_system(&world.ball, &mut world.ball_transform, dt);
    assert(*world == old(world).moved(*keyboard, dt, launch_draw));
    launched
}

/// The second half of a frame: a collision is resolved, a ball that is out
/// is reported, its point is given, and the rally or the game is ended.
/// `launched` and `state` are handed on to the report of the frame.
pub fn run_rule_systems(world: &mut World, keyboard: &Keys, state: GameState, launched: bool) -> (frame:
    Frame)
    requires
        old(world).has_room_for_a_point(),
    ensures
        *final(world) == old(world).ruled(),
        frame.reports(*old(world), *keyboard, state, launched),
{
    let mut colliders: Vec<Obstacle> = Vec::new();
    colliders.push(Obstacle { collider: Collider::Wall, transform: world.top_wall });
    colliders.push(Obstacle { collider: Collider::Wall, transform: world.bottom_wall });
    colliders.push(Obstacle { collider: Collider::Paddle, transform: world.left.transform });
    colliders.push(Obstacle { collider: Collider::Paddle, transform: world.right.transform });
    assert(colliders@ =~= world.colliders());
    let mut ball_hit_paddle: Vec<BallHitPaddleEvent> = Vec::new();
    let hit: Option<Hit> = check_ball_collision_system(
        &mut world.ball,
        &mut world.ball_transform,
        &mut ball_hit_paddle,
        &colliders,
        &world.config,
    );
    let mut ball_out: Vec<BallOutEvent> = Vec::new();
    check_ball_out_system(
        &mut ball_out,
        &world.ball_transform,
        &world.window,
        &world.config,
        &world.game_data,
    );
    proof {
        lemma_count_single(ball_out@, Side::Left);
        lemma_count_single(ball_out@, Side::Right);
    }
    increment_score_system(&ball_out, &mut world.game_data);
    let mut game_over: Vec<GameOverEvent> = Vec::new();
    check_game_over_system(
        &ball_out,
        &mut game_over,
        &mut world.ball,
        &mut world.left,
        &mut world.right,
        &mut world.game_data,
        &world.config,
    );
    let banner: Option<Banner> = game_over_system(&game_over);
    let next: GameState = back_to_menu_system(state, keyboard);
    Frame { launched, hit, ball_hit_paddle, ball_out, game_over, banner, state: next }
}

} // verus!
