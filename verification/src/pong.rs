//! The game's data: components, resources, the entity table, and its setup.
//!
//! Each executable type has a mathematical view over unbounded integers; the
//! rules of the game are stated over those views.

use crate::systems::move_balls::{flown, MoveBallsSystem};
use crate::systems::paddle::{steer, Axes, PaddleSystem};
use crate::systems::winner::{goals, refereed, report, Goal, WinnerSystem};
use crate::units::{MILLI, UNIT};
use vstd::prelude::*;

verus! {

/// Height of the arena.
pub const ARENA_HEIGHT: i64 = 100 * UNIT;

/// Width of the arena.
pub const ARENA_WIDTH: i64 = 100 * UNIT;

/// Height of a paddle, as the vertical band of the paddles uses it.
pub const PADDLE_HEIGHT: i64 = 16 * UNIT;

/// Width of a paddle.
pub const PADDLE_WIDTH: i64 = 4 * UNIT;

/// Horizontal velocity of the ball at kick-off.
pub const BALL_VELOCITY_X: i64 = 50 * MILLI;

/// Vertical velocity of the ball at kick-off.
pub const BALL_VELOCITY_Y: i64 = 25 * MILLI;

/// Radius of the ball.
pub const BALL_RADIUS: i64 = 2 * UNIT;

/// The highest score that the board shows.
pub const MAX_SCORE: i32 = 999;

/// Side of the arena that a paddle defends.
#[derive(Clone, Copy, Debug, PartialEq, Eq, Structural)]
pub enum Side {
    Left,
    Right,
}

/// A position in the arena, as mathematics sees it.
pub struct Point {
    pub x: int,
    pub y: int,
}

/// Position of an entity.
#[derive(Clone, Copy, Debug, PartialEq, Eq)]
pub struct Transform {
    pub x: i64,
    pub y: i64,
}

impl View for Transform {
    type V = Point;

    open spec fn view(&self) -> Point {
        Point { x: self.x as int, y: self.y as int }
    }
}

/// A paddle, as mathematics sees it.
pub struct PaddleModel {
    pub side: Side,
    pub width: int,
    pub height: int,
}

/// Marks an entity as a paddle.
#[derive(Clone, Copy, Debug, PartialEq, Eq)]
pub struct Paddle {
    pub side: Side,
    pub width: i64,
    pub height: i64,
}

impl View for Paddle {
    type V = PaddleModel;

    open spec fn view(&self) -> PaddleModel {
        PaddleModel { side: self.side, width: self.width as int, height: self.height as int }
    }
}

impl Paddle {
    /// A paddle of unit size on the given side.
    pub fn new(side: Side) -> (paddle: Paddle)
        ensures
            paddle@ == (PaddleModel { side, width: UNIT as int, height: UNIT as int }),
    {
        Paddle { side, width: UNIT, height: UNIT }
    }
}

/// A ball, as mathematics sees it.
pub struct BallModel {
    pub vx: int,
    pub vy: int,
    pub radius: int,
}

/// Marks an entity as a ball: its velocity along x and y, and its radius.
#[derive(Clone, Copy, Debug, PartialEq, Eq)]
pub struct Ball {
    pub velocity: [i64; 2],
    pub radius: i64,
}

impl View for Ball {
    type V = BallModel;

    open spec fn view(&self) -> BallModel {
        BallModel {
            vx: self.velocity[0] as int,
            vy: self.velocity[1] as int,
            radius: self.radius as int,
        }
    }
}

/// The two scores, as mathematics sees them.
pub struct Tally {
    pub left: int,
    pub right: int,
}

impl Tally {
    /// A score after one more point: it grows by one until it shows the highest score.
    pub open spec fn raised(score: int) -> int {
        if score >= MAX_SCORE {
            MAX_SCORE as int
        } else {
            score + 1
        }
    }

    /// The tally after a point for `side`.
    pub open spec fn awarded(self, side: Side) -> Tally {
        match side {
            Side::Left => Tally { left: Self::raised(self.left), right: self.right },
            Side::Right => Tally { left: self.left, right: Self::raised(self.right) },
        }
    }

    /// The score of `side`.
    pub open spec fn of(self, side: Side) -> int {
        match side {
            Side::Left => self.left,
            Side::Right => self.right,
        }
    }

    /// Both scores lie between zero and the highest score.
    pub open spec fn in_range(self) -> bool {
        0 <= self.left <= MAX_SCORE && 0 <= self.right <= MAX_SCORE
    }
}

/// The score of each player.
#[derive(Clone, Copy, Debug, PartialEq, Eq)]
pub struct ScoreBoard {
    pub score_left: i32,
    pub score_right: i32,
}

impl View for ScoreBoard {
    type V = Tally;

    open spec fn view(&self) -> Tally {
        Tally { left: self.score_left as int, right: self.score_right as int }
    }
}

impl Default for ScoreBoard {
    fn default() -> (board: ScoreBoard)
        ensures
            board@ == (Tally { left: 0, right: 0 }),
    {
        ScoreBoard { score_left: 0, score_right: 0 }
    }
}

impl ScoreBoard {
    /// Gives `side` one more point, up to the highest score, and returns its new score.
    pub fn award(&mut self, side: Side) -> (score: i32)
        ensures
            final(self)@ == old(self)@.awarded(side),
            score == final(self)@.of(side),
    {
        match side {
            Side::Left => {
                if self.score_left >= MAX_SCORE {
                    self.score_left = MAX_SCORE;
                } else {
                    self.score_left = self.score_left + 1;
                }
                self.score_left
            },
            Side::Right => {
                if self.score_right >= MAX_SCORE {
                    self.score_right = MAX_SCORE;
                } else {
                    self.score_right = self.score_right + 1;
                }
                self.score_right
            },
        }
    }
}

/// Names an entity: its place in the entity table.
#[derive(Clone, Copy, Debug, PartialEq, Eq, Structural)]
pub struct Entity {
    pub id: usize,
}

/// The two entities that show the scores on screen.
#[derive(Clone, Copy, Debug, PartialEq, Eq, Structural)]
pub struct ScoreText {
    pub p1_score: Entity,
    pub p2_score: Entity,
}

impl ScoreText {
    /// The entity that shows the score of `side`.
    pub open spec fn of(self, side: Side) -> Entity {
        match side {
            Side::Left => self.p1_score,
            Side::Right => self.p2_score,
        }
    }

    /// The entity that shows the score of `side`.
    pub fn target(&self, side: Side) -> (entity: Entity)
        ensures
            entity == self.of(side),
    {
        match side {
            Side::Left => self.p1_score,
            Side::Right => self.p2_score,
        }
    }
}

/// What one entity owns, as mathematics sees it.
pub struct Body {
    pub transform: Option<Point>,
    pub paddle: Option<PaddleModel>,
    pub ball: Option<BallModel>,
}

/// What one entity owns: each component is there or not.
#[derive(Clone, Copy, Debug, PartialEq, Eq)]
pub struct Components {
    pub transform: Option<Transform>,
    pub paddle: Option<Paddle>,
    pub ball: Option<Ball>,
}

impl View for Components {
    type V = Body;

    open spec fn view(&self) -> Body {
        Body {
            transform: match self.transform {
                Some(t) => Some(t@),
                None => None,
            },
            paddle: match self.paddle {
                Some(p) => Some(p@),
                None => None,
            },
            ball: match self.ball {
                Some(b) => Some(b@),
                None => None,
            },
        }
    }
}

impl Components {
    /// An entity that owns nothing.
    pub fn bare() -> (components: Components)
        ensures
            components@ == Body::bare(),
    {
        Components { transform: None, paddle: None, ball: None }
    }
}

/// The whole game, as mathematics sees it.
pub struct Scene {
    pub bodies: Seq<Body>,
    pub tally: Tally,
    pub score_text: Option<ScoreText>,
}

/// The whole game: the entity table and the two resources.
#[derive(Clone, Debug, PartialEq, Eq)]
pub struct World {
    pub entities: Vec<Components>,
    pub scores: ScoreBoard,
    pub score_text: Option<ScoreText>,
}

impl View for World {
    type V = Scene;

    open spec fn view(&self) -> Scene {
        Scene {
            bodies: Seq::new(self.entities@.len(), |i: int| self.entities@[i]@),
            tally: self.scores@,
            score_text: self.score_text,
        }
    }
}

impl Body {
    /// An entity that owns nothing.
    pub open spec fn bare() -> Body {
        Body { transform: None, paddle: None, ball: None }
    }

    /// The ball as the game starts: in the middle of the arena, on its way up and to the right.
    pub open spec fn ball_at_start() -> Body {
        Body {
            transform: Some(Point { x: ARENA_WIDTH / 2, y: ARENA_HEIGHT / 2 }),
            paddle: None,
            ball: Some(
                BallModel {
                    vx: BALL_VELOCITY_X as int,
                    vy: BALL_VELOCITY_Y as int,
                    radius: BALL_RADIUS as int,
                },
            ),
        }
    }

    /// A paddle as the game starts: against the wall of its side, half-way up.
    pub open spec fn paddle_at_start(side: Side) -> Body {
        Body {
            transform: Some(
                Point {
                    x: match side {
                        Side::Left => PADDLE_WIDTH / 2,
                        Side::Right => ARENA_WIDTH - PADDLE_WIDTH / 2,
                    },
                    y: ARENA_HEIGHT / 2,
                },
            ),
            paddle: Some(PaddleModel { side, width: UNIT as int, height: UNIT as int }),
            ball: None,
        }
    }

    /// The entity is a ball that the systems act on: it owns a ball and a position.
    pub open spec fn is_ball(self) -> bool {
        self.ball is Some && self.transform is Some
    }

    /// The entity is a paddle of `side` that the systems act on: it owns such a
    /// paddle and a position.
    pub open spec fn is_paddle(self, side: Side) -> bool {
        self.paddle is Some && self.transform is Some && self.paddle.unwrap().side == side
    }
}

/// How many of the entities are balls that the systems act on.
pub open spec fn ball_count(bodies: Seq<Body>) -> nat
    decreases bodies.len(),
{
    if bodies.len() == 0 {
        0
    } else {
        ball_count(bodies.drop_last()) + if bodies.last().is_ball() {
            1nat
        } else {
            0nat
        }
    }
}

/// How many of the entities are paddles of `side` that the systems act on.
pub open spec fn paddle_count(bodies: Seq<Body>, side: Side) -> nat
    decreases bodies.len(),
{
    if bodies.len() == 0 {
        0
    } else {
        paddle_count(bodies.drop_last(), side) + if bodies.last().is_paddle(side) {
            1nat
        } else {
            0nat
        }
    }
}

impl Scene {
    /// The game can be played: it has exactly one ball and exactly one paddle on each side.
    pub open spec fn playable(self) -> bool {
        &&& ball_count(self.bodies) == 1
        &&& paddle_count(self.bodies, Side::Left) == 1
        &&& paddle_count(self.bodies, Side::Right) == 1
    }

    /// The game after one tick: the paddle control, then `millis` milliseconds
    /// of motion, then the scoring.
    pub open spec fn ticked(self, axes: Axes, millis: int) -> Scene {
        refereed(flown(steer(self, axes), millis))
    }

    /// The game with one more entity at the end of its table.
    pub open spec fn with(self, body: Body) -> Scene {
        Scene { bodies: self.bodies.push(body), tally: self.tally, score_text: self.score_text }
    }

    /// The game with the two score displays named.
    pub open spec fn showing(self, handles: ScoreText) -> Scene {
        Scene { bodies: self.bodies, tally: self.tally, score_text: Some(handles) }
    }

    /// The game right after its setup: the ball, the left paddle, the right
    /// paddle and the two score displays join the table in this order.
    pub open spec fn started(self) -> Scene {
        let first = self.bodies.len();
        self.with(Body::ball_at_start()).with(Body::paddle_at_start(Side::Left)).with(
            Body::paddle_at_start(Side::Right),
        ).with(Body::bare()).with(Body::bare()).showing(
            ScoreText {
                p1_score: Entity { id: (first + 3) as usize },
                p2_score: Entity { id: (first + 4) as usize },
            },
        )
    }
}

impl World {
    /// A game with no entity, no point scored and no score display.
    pub fn new() -> (world: World)
        ensures
            world@ == (Scene {
                bodies: Seq::empty(),
                tally: Tally { left: 0, right: 0 },
                score_text: None,
            }),
    {
        let world = World { entities: Vec::new(), scores: ScoreBoard::default(), score_text: None };
        assert(world@.bodies =~= Seq::<Body>::empty());
        world
    }

    /// Adds an entity at the end of the table and returns its name.
    pub fn create_entity(&mut self, components: Components) -> (entity: Entity)
        ensures
            final(self)@ == old(self)@.with(components@),
            entity.id == old(self)@.bodies.len(),
    {
        let entity = Entity { id: self.entities.len() };
        self.entities.push(components);
        assert(self@.bodies =~= old(self)@.bodies.push(components@));
        entity
    }
}

/// Why a game cannot be played: what it has the wrong number of, and how many it has.
#[derive(Clone, Copy, Debug, PartialEq, Eq)]
pub enum SetupError {
    Balls(usize),
    LeftPaddles(usize),
    RightPaddles(usize),
}

impl World {
    /// Counts the balls that the systems act on.
    pub fn count_balls(&self) -> (found: usize)
        ensures
            found == ball_count(self@.bodies),
    {
        let n = self.entities.len();
        let mut found: usize = 0;
        let mut i: usize = 0;
        proof {
            assert(self@.bodies.take(0) =~= Seq::<Body>::empty());
        }
        while i < n
            invariant
                i <= n,
                n == self.entities.len(),
                found <= i,
                found == ball_count(self@.bodies.take(i as int)),
            decreases n - i,
        {
            proof {
                assert(self@.bodies.take(i + 1).drop_last() =~= self@.bodies.take(i as int));
            }
            if self.entities[i].ball.is_some() && self.entities[i].transform.is_some() {
                found = found + 1;
            }
            i = i + 1;
        }
        proof {
            assert(self@.bodies.take(n as int) =~= self@.bodies);
        }
        found
    }

    /// Counts the paddles of `side` that the systems act on.
    pub fn count_paddles(&self, side: Side) -> (found: usize)
        ensures
            found == paddle_count(self@.bodies, side),
    {
        let n = self.entities.len();
        let mut found: usize = 0;
        let mut i: usize = 0;
        proof {
            assert(self@.bodies.take(0) =~= Seq::<Body>::empty());
        }
        while i < n
            invariant
                i <= n,
                n == self.entities.len(),
                found <= i,
                found == paddle_count(self@.bodies.take(i as int), side),
            decreases n - i,
        {
            proof {
                assert(self@.bodies.take(i + 1).drop_last() =~= self@.bodies.take(i as int));
            }
            let mine = match self.entities[i].paddle {
                Some(paddle) => paddle.side == side,
                None => false,
            };
            if mine && self.entities[i].transform.is_some() {
                found = found + 1;
            }
            i = i + 1;
        }
        proof {
            assert(self@.bodies.take(n as int) =~= self@.bodies);
        }
        found
    }

    /// Says whether the game can be played, and if not, what is wrong with
    /// it: the balls are looked at first, then the left paddles, then the right ones.
    pub fn validate(&self) -> (outcome: Result<(), SetupError>)
        ensures
            outcome is Ok <==> self@.playable(),
            outcome matches Err(SetupError::Balls(found)) ==> found != 1 && found == ball_count(
                self@.bodies,
            ),
            outcome matches Err(SetupError::LeftPaddles(found)) ==> ball_count(self@.bodies) == 1
                && found != 1 && found == paddle_count(self@.bodies, Side::Left),
            outcome matches Err(SetupError::RightPaddles(found)) ==> ball_count(self@.bodies) == 1
                && paddle_count(self@.bodies, Side::Left) == 1 && found != 1 && found
                == paddle_count(self@.bodies, Side::Right),
    {
        let balls = self.count_balls();
        if balls != 1 {
            return Err(SetupError::Balls(balls));
        }
        let left = self.count_paddles(Side::Left);
        if left != 1 {
            return Err(SetupError::LeftPaddles(left));
        }
        let right = self.count_paddles(Side::Right);
        if right != 1 {
            return Err(SetupError::RightPaddles(right));
        }
        Ok(())
    }
}

/// Puts the ball into the game.
pub fn initialize_ball(world: &mut World) -> (entity: Entity)
    ensures
        final(world)@ == old(world)@.with(Body::ball_at_start()),
        entity.id == old(world)@.bodies.len(),
{
    let transform = Transform { x: ARENA_WIDTH / 2, y: ARENA_HEIGHT / 2 };
    let ball = Ball { velocity: [BALL_VELOCITY_X, BALL_VELOCITY_Y], radius: BALL_RADIUS };
    world.create_entity(Components { transform: Some(transform), paddle: None, ball: Some(ball) })
}

/// Puts the two paddles into the game, the left one first.
pub fn initialise_paddles(world: &mut World) -> (entities: (Entity, Entity))
    ensures
        final(world)@ == old(world)@.with(Body::paddle_at_start(Side::Left)).with(
            Body::paddle_at_start(Side::Right),
        ),
        entities.0.id == old(world)@.bodies.len(),
        entities.1.id == old(world)@.bodies.len() + 1,
{
    let y = ARENA_HEIGHT / 2;
    let left_transform = Transform { x: PADDLE_WIDTH / 2, y };
    let right_transform = Transform { x: ARENA_WIDTH - PADDLE_WIDTH / 2, y };
    let left = world.create_entity(
        Components {
            transform: Some(left_transform),
            paddle: Some(Paddle::new(Side::Left)),
            ball: None,
        },
    );
    let right = world.create_entity(
        Components {
            transform: Some(right_transform),
            paddle: Some(Paddle::new(Side::Right)),
            ball: None,
        },
    );
    (left, right)
}

/// Puts the two score displays into the game, the left player's first, and
/// names them for the scoring.
pub fn initialize_scoreboard(world: &mut World) -> (handles: ScoreText)
    ensures
        final(world)@ == old(world)@.with(Body::bare()).with(Body::bare()).showing(handles),
        handles.p1_score.id == old(world)@.bodies.len(),
        handles.p2_score.id == old(world)@.bodies.len() + 1,
{
    let p1_score = world.create_entity(Components::bare());
    let p2_score = world.create_entity(Components::bare());
    let handles = ScoreText { p1_score, p2_score };
    world.score_text = Some(handles);
    handles
}

/// The game as a whole.
pub struct Pong;

impl Pong {
    /// Sets the game up: the ball, the paddles and the score displays join the world.
    pub fn on_start(&mut self, world: &mut World)
        ensures
            final(world)@ == old(world)@.started(),
    {
        initialize_ball(world);
        initialise_paddles(world);
        initialize_scoreboard(world);
    }

    /// Plays one tick: the paddles follow their axes, the ball moves for
    /// `millis` milliseconds, and the scoring looks at where it got to. Returns
    /// what the scoring tells about each goal.
    pub fn update(&mut self, world: &mut World, axes: &Axes, millis: u32) -> (told: Vec<Goal>)
        ensures
            final(world)@ == old(world)@.ticked(*axes, millis as int),
            told@.len() == goals(flown(steer(old(world)@, *axes), millis as int).bodies).len(),
            forall|k: int|
                0 <= k < told@.len() ==> (#[trigger] told@[k])@ == report(
                    flown(steer(old(world)@, *axes), millis as int),
                    k,
                ),
    {
        let mut paddles = PaddleSystem;
        paddles.run(world, axes);
        let mut motion = MoveBallsSystem;
        motion.run(world, millis);
        let mut scoring = WinnerSystem;
        scoring.run(world)
    }
}

} // verus!
