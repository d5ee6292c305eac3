//! Motion: each ball travels along its velocity for the time that has passed.
//! Nothing stops it at the edges of the arena.

use crate::pong::{Ball, BallModel, Body, Components, Point, Scene, Transform, World};
use crate::units::{saturate, saturating_narrow, scale_by_time};
use vstd::prelude::*;

verus! {

/// Where a ball that was at `at` is after `millis` milliseconds. A coordinate
/// that would leave the range of `i64` stops at its end.
pub open spec fn travelled(at: Point, ball: BallModel, millis: int) -> Point {
    Point { x: saturate(at.x + ball.vx * millis), y: saturate(at.y + ball.vy * millis) }
}

/// What an entity owns after `millis` milliseconds of motion. Only an entity
/// with both a ball and a position moves.
pub open spec fn carried(body: Body, millis: int) -> Body {
    if body.ball is Some && body.transform is Some {
        Body {
            transform: Some(travelled(body.transform.unwrap(), body.ball.unwrap(), millis)),
            paddle: body.paddle,
            ball: body.ball,
        }
    } else {
        body
    }
}

/// The game after `millis` milliseconds of motion.
pub open spec fn flown(scene: Scene, millis: int) -> Scene {
    Scene {
        bodies: Seq::new(scene.bodies.len(), |i: int| carried(scene.bodies[i], millis)),
        tally: scene.tally,
        score_text: scene.score_text,
    }
}

/// Moves one ball along its velocity for `millis` milliseconds.
pub fn advance(ball: &Ball, transform: &mut Transform, millis: u32)
    ensures
        final(transform)@ == travelled(old(transform)@, ball@, millis as int),
{
    transform.x = saturating_narrow(transform.x as i128 + scale_by_time(ball.velocity[0], millis));
    transform.y = saturating_narrow(transform.y as i128 + scale_by_time(ball.velocity[1], millis));
}

/// Moves one entity where it owns both a ball and a position.
pub fn advance_entity(components: &mut Components, millis: u32)
    ensures
        final(components)@ == carried(old(components)@, millis as int),
{
    match (&components.ball, &mut components.transform) {
        (Some(ball), Some(transform)) => advance(ball, transform, millis),
        _ => {},
    }
}

/// The motion system.
pub struct MoveBallsSystem;

impl MoveBallsSystem {
    /// Moves every ball for the `millis` milliseconds since the last tick.
    /// No time passed is no motion.
    pub fn run(&mut self, world: &mut World, millis: u32)
        ensures
            final(world)@ == flown(old(world)@, millis as int),
    {
        let n = world.entities.len();
        let mut i: usize = 0;
        while i < n
            invariant
                i <= n,
                n == world.entities.len(),
                n == old(world).entities.len(),
                world.scores == old(world).scores,
                world.score_text == old(world).score_text,
                forall|j: int|
                    0 <= j < i ==> (#[trigger] world.entities[j])@ == carried(
                        old(world).entities[j]@,
                        millis as int,
                    ),
                forall|j: int|
                    i <= j < n ==> #[trigger] world.entities[j] == old(world).entities[j],
            decreases n - i,
        {
            advance_entity(&mut world.entities[i], millis);
            i = i + 1;
        }
        assert(world@.bodies =~= flown(old(world)@, millis as int).bodies);
    }
}

/// Where the ball stays inside the range of `i64`, it moves by exactly its
/// velocity times the time that has passed, along each axis.
pub proof fn travelled_exactly(at: Point, ball: BallModel, millis: int)
    requires
        i64::MIN <= at.x + ball.vx * millis <= i64::MAX,
        i64::MIN <= at.y + ball.vy * millis <= i64::MAX,
    ensures
        travelled(at, ball, millis) == (Point {
            x: at.x + ball.vx * millis,
            y: at.y + ball.vy * millis,
        }),
{
}

/// A tick in which no time has passed leaves every entity where it is.
pub proof fn no_time_no_motion(world: &World)
    ensures
        flown(world@, 0) == world@,
{
    assert forall|i: int| 0 <= i < world@.bodies.len() implies carried(world@.bodies[i], 0)
        == world@.bodies[i] by {
        let body = world@.bodies[i];
        if body.ball is Some && body.transform is Some {
            assert(body.ball.unwrap().vx * 0 == 0);
            assert(body.ball.unwrap().vy * 0 == 0);
            assert(world.entities@[i].transform is Some);
        }
    }
    assert(flown(world@, 0).bodies =~= world@.bodies);
}

} // verus!
