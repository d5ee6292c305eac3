//! Paddle control: the deflection of a paddle's input axis moves the paddle
//! up or down, inside the vertical band in which a paddle fits the arena.

use crate::pong::{
    Body, Components, Point, Scene, Side, Transform, World, ARENA_HEIGHT, PADDLE_HEIGHT,
};
use crate::units::{clamp, clamp_narrow, clamp_stays_in_band};
use vstd::prelude::*;

verus! {

/// The sensitivity of the input, a rate: a paddle moves by this many steps of
/// length for each step of its axis, which is one and a fifth of the deflection.
pub const SENSITIVITY: i64 = 1_200;

/// The lowest place of a paddle's centre.
pub open spec fn lowest() -> int {
    PADDLE_HEIGHT / 2
}

/// The highest place of a paddle's centre.
pub open spec fn highest() -> int {
    ARENA_HEIGHT - PADDLE_HEIGHT / 2
}

/// Where a paddle that was at `at` is after its axis was deflected by `amount`.
/// It does not move sideways.
pub open spec fn moved(at: Point, amount: int) -> Point {
    Point { x: at.x, y: clamp(at.y + SENSITIVITY * amount, lowest(), highest()) }
}

/// The deflections of the two paddle axes at one tick. An axis that nothing
/// is bound to has none.
#[derive(Clone, Copy, Debug, PartialEq, Eq)]
pub struct Axes {
    pub left_paddle: Option<i64>,
    pub right_paddle: Option<i64>,
}

impl Axes {
    /// The deflection of the axis that drives the paddle on `side`.
    pub open spec fn of(self, side: Side) -> Option<i64> {
        match side {
            Side::Left => self.left_paddle,
            Side::Right => self.right_paddle,
        }
    }

    /// The deflection of the axis that drives the paddle on `side`.
    pub fn axis_value(&self, side: Side) -> (amount: Option<i64>)
        ensures
            amount == self.of(side),
    {
        match side {
            Side::Left => self.left_paddle,
            Side::Right => self.right_paddle,
        }
    }
}

/// What an entity owns after the paddle control. Only an entity with both a
/// paddle and a position can move, and only where its axis has a deflection.
pub open spec fn steered(body: Body, axes: Axes) -> Body {
    if body.paddle is Some && body.transform is Some {
        match axes.of(body.paddle.unwrap().side) {
            Some(amount) => Body {
                transform: Some(moved(body.transform.unwrap(), amount as int)),
                paddle: body.paddle,
                ball: body.ball,
            },
            None => body,
        }
    } else {
        body
    }
}

/// The game after the paddle control.
pub open spec fn steer(scene: Scene, axes: Axes) -> Scene {
    Scene {
        bodies: Seq::new(scene.bodies.len(), |i: int| steered(scene.bodies[i], axes)),
        tally: scene.tally,
        score_text: scene.score_text,
    }
}

/// The name of the input axis that drives the paddle on `side`.
pub fn axis_name(side: Side) -> (name: &'static str)
    ensures
        name@ == match side {
            Side::Left => "left_paddle"@,
            Side::Right => "right_paddle"@,
        },
{
    match side {
        Side::Left => "left_paddle",
        Side::Right => "right_paddle",
    }
}

/// Moves a paddle by the deflection `amount` of its axis, and holds it inside the band.
pub fn mov(amount: i64, transform: &mut Transform)
    ensures
        final(transform)@ == moved(old(transform)@, amount as int),
{
    let scaled: i128 = (SENSITIVITY as i128) * (amount as i128);
    assert(scaled == 1_200 * amount);
    let paddle_y: i128 = transform.y as i128;
    transform.y = clamp_narrow(
        paddle_y + scaled,
        PADDLE_HEIGHT / 2,
        ARENA_HEIGHT - PADDLE_HEIGHT / 2,
    );
}

/// Moves one entity where it owns both a paddle and a position.
pub fn steer_entity(components: &mut Components, axes: &Axes)
    ensures
        final(components)@ == steered(old(components)@, *axes),
{
    match (&components.paddle, &mut components.transform) {
        (Some(paddle), Some(transform)) => {
            match axes.axis_value(paddle.side) {
                Some(amount) => mov(amount, transform),
                None => {},
            }
        },
        _ => {},
    }
}

/// The paddle control system.
pub struct PaddleSystem;

impl PaddleSystem {
    /// Moves every paddle by the deflection of the axis of its side.
    pub fn run(&mut self, world: &mut World, axes: &Axes)
        ensures
            final(world)@ == steer(old(world)@, *axes),
    {
        let n = world.entities.len();
        let mut i: usize = 0;
        while i < n
            invariant
                i <= n,
                n == world.entities.len(),
                n == old(world).entities.len(),
                world.scores == old(world).scores,
                world.score_text == old(world).score_text,
                forall|j: int|
                    0 <= j < i ==> (#[trigger] world.entities[j])@ == steered(
                        old(world).entities[j]@,
                        *axes,
                    ),
                forall|j: int|
                    i <= j < n ==> #[trigger] world.entities[j] == old(world).entities[j],
            decreases n - i,
        {
            steer_entity(&mut world.entities[i], axes);
            i = i + 1;
        }
        assert(world@.bodies =~= steer(old(world)@, *axes).bodies);
    }
}

/// A paddle that its axis has moved lies inside the band, wherever it was and
/// whatever the deflection, and it has not moved sideways.
pub proof fn moved_stays_in_band(at: Point, amount: int)
    ensures
        lowest() <= moved(at, amount).y <= highest(),
        moved(at, amount).x == at.x,
{
    clamp_stays_in_band(at.y + SENSITIVITY * amount, lowest(), highest());
}

/// A deflection of zero leaves a paddle inside the band where it is.
pub proof fn moved_by_nothing(at: Point)
    requires
        lowest() <= at.y <= highest(),
    ensures
        moved(at, 0) == at,
{
}

/// Where neither axis has a deflection, the paddle control changes nothing.
pub proof fn idle_axes_change_nothing(scene: Scene)
    ensures
        steer(scene, Axes { left_paddle: None, right_paddle: None }) == scene,
{
    let idle = Axes { left_paddle: None, right_paddle: None };
    assert(steer(scene, idle).bodies =~= scene.bodies);
}

} // verus!
