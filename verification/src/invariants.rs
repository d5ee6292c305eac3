//! What holds of a game at every tick, from its setup on.

use crate::pong::{ball_count, paddle_count, Body, Point, Scene, Side, ARENA_WIDTH};
use crate::systems::move_balls::{carried, flown};
use crate::systems::paddle::{highest, lowest, steer, steered, Axes};
use crate::systems::winner::{
    body_goal, goals, goals_at_most_balls, refereed, served, tallied_stays_in_range,
};
use crate::units::reversed;
use vstd::prelude::*;

verus! {

/// The input of one tick: the deflections of the axes and the milliseconds that have passed.
pub struct Frame {
    pub axes: Axes,
    pub millis: nat,
}

/// The game after a run of ticks, one for each frame.
pub open spec fn played(scene: Scene, frames: Seq<Frame>) -> Scene
    decreases frames.len(),
{
    if frames.len() == 0 {
        scene
    } else {
        played(scene, frames.drop_last()).ticked(frames.last().axes, frames.last().millis as int)
    }
}

/// Two entities own the same kinds of things: the same paddle, and a ball and
/// a position each or neither.
pub open spec fn same_kind(a: Body, b: Body) -> bool {
    &&& a.paddle == b.paddle
    &&& a.ball is Some <==> b.ball is Some
    &&& a.transform is Some <==> b.transform is Some
}

/// Two games have the same cast: as many entities, each of the same kind as its counterpart.
pub open spec fn same_cast(a: Scene, b: Scene) -> bool {
    &&& a.bodies.len() == b.bodies.len()
    &&& a.score_text == b.score_text
    &&& forall|i: int| 0 <= i < a.bodies.len() ==> same_kind(#[trigger] a.bodies[i], b.bodies[i])
}

/// Every paddle with a position lies inside the vertical band.
pub open spec fn paddles_in_band(scene: Scene) -> bool {
    forall|i: int|
        0 <= i < scene.bodies.len() && (#[trigger] scene.bodies[i]).paddle is Some
            && scene.bodies[i].transform is Some ==> lowest()
            <= scene.bodies[i].transform.unwrap().y <= highest()
}

/// No entity is a paddle and a ball at once.
pub open spec fn paddles_carry_no_ball(scene: Scene) -> bool {
    forall|i: int|
        0 <= i < scene.bodies.len() ==> !((#[trigger] scene.bodies[i]).paddle is Some
            && scene.bodies[i].ball is Some)
}

/// The state of a game in play: one ball, one paddle on each side and none of
/// them a ball, every paddle inside the band, both scores inside the range of the board.
pub open spec fn in_play(scene: Scene) -> bool {
    &&& scene.playable()
    &&& paddles_in_band(scene)
    &&& paddles_carry_no_ball(scene)
    &&& scene.tally.in_range()
}

/// Games with the same cast have as many balls, and as many paddles on each side.
pub proof fn same_cast_same_counts(a: Seq<Body>, b: Seq<Body>)
    requires
        a.len() == b.len(),
        forall|i: int| 0 <= i < a.len() ==> same_kind(#[trigger] a[i], b[i]),
    ensures
        ball_count(a) == ball_count(b),
        paddle_count(a, Side::Left) == paddle_count(b, Side::Left),
        paddle_count(a, Side::Right) == paddle_count(b, Side::Right),
    decreases a.len(),
{
    if a.len() > 0 {
        assert(same_kind(a[a.len() - 1], b[a.len() - 1]));
        assert forall|i: int| 0 <= i < a.drop_last().len() implies same_kind(
            #[trigger] a.drop_last()[i],
            b.drop_last()[i],
        ) by {
            assert(same_kind(a[i], b[i]));
        }
        same_cast_same_counts(a.drop_last(), b.drop_last());
    }
}

/// No system adds or removes an entity or a component, or touches a paddle's
/// description: a tick leaves the cast of the game as it was.
pub proof fn tick_keeps_cast(scene: Scene, axes: Axes, millis: int)
    ensures
        same_cast(scene, steer(scene, axes)),
        same_cast(scene, flown(scene, millis)),
        same_cast(scene, refereed(scene)),
        same_cast(scene, scene.ticked(axes, millis)),
{
    let steered_scene = steer(scene, axes);
    let flown_scene = flown(steered_scene, millis);
    let last = refereed(flown_scene);
    assert forall|i: int| 0 <= i < scene.bodies.len() implies same_kind(
        #[trigger] scene.bodies[i],
        last.bodies[i],
    ) by {
        assert(steered_scene.bodies[i] == steered(scene.bodies[i], axes));
        assert(flown_scene.bodies[i] == carried(steered_scene.bodies[i], millis));
        assert(last.bodies[i] == served(flown_scene.bodies[i]));
    }
}

/// A tick never changes how fast a ball rises or falls, nor its radius, and
/// it changes its horizontal velocity only by turning it round after a goal.
pub proof fn tick_keeps_vertical_velocity(scene: Scene, axes: Axes, millis: int, i: int)
    requires
        0 <= i < scene.bodies.len(),
        scene.bodies[i].ball is Some,
    ensures
        scene.ticked(axes, millis).bodies[i].ball is Some,
        scene.ticked(axes, millis).bodies[i].ball.unwrap().vy == scene.bodies[i].ball.unwrap().vy,
        scene.ticked(axes, millis).bodies[i].ball.unwrap().radius
            == scene.bodies[i].ball.unwrap().radius,
        scene.ticked(axes, millis).bodies[i].ball.unwrap().vx == if body_goal(
            flown(steer(scene, axes), millis).bodies[i],
        ) is Some {
            reversed(scene.bodies[i].ball.unwrap().vx)
        } else {
            scene.bodies[i].ball.unwrap().vx
        },
{
    let steered_scene = steer(scene, axes);
    let flown_scene = flown(steered_scene, millis);
    assert(steered_scene.bodies[i] == steered(scene.bodies[i], axes));
    assert(flown_scene.bodies[i] == carried(steered_scene.bodies[i], millis));
    assert(scene.ticked(axes, millis).bodies[i] == served(flown_scene.bodies[i]));
}

/// A ball that the scoring finds on a goal line is back in the middle of the
/// arena, at the height it had reached, by the end of that same tick.
pub proof fn goal_recentres_within_the_tick(scene: Scene, axes: Axes, millis: int, i: int)
    requires
        0 <= i < scene.bodies.len(),
        body_goal(flown(steer(scene, axes), millis).bodies[i]) is Some,
    ensures
        scene.ticked(axes, millis).bodies[i].transform == Some(
            Point {
                x: ARENA_WIDTH / 2,
                y: flown(steer(scene, axes), millis).bodies[i].transform.unwrap().y,
            },
        ),
{
    let flown_scene = flown(steer(scene, axes), millis);
    assert(scene.ticked(axes, millis).bodies[i] == served(flown_scene.bodies[i]));
}

/// A game that can be played can still be played after a tick.
pub proof fn tick_keeps_playable(scene: Scene, axes: Axes, millis: int)
    requires
        scene.playable(),
    ensures
        scene.ticked(axes, millis).playable(),
{
    tick_keeps_cast(scene, axes, millis);
    same_cast_same_counts(scene.bodies, scene.ticked(axes, millis).bodies);
}

/// After the paddle control, every paddle whose axis had a deflection lies
/// inside the band, and every paddle that was inside it still is.
pub proof fn steer_keeps_paddles_in_band(scene: Scene, axes: Axes)
    ensures
        forall|i: int|
            0 <= i < scene.bodies.len() && (#[trigger] scene.bodies[i]).paddle is Some
                && scene.bodies[i].transform is Some && axes.of(
                scene.bodies[i].paddle.unwrap().side,
            ) is Some ==> lowest() <= steer(scene, axes).bodies[i].transform.unwrap().y
                <= highest(),
        paddles_in_band(scene) ==> paddles_in_band(steer(scene, axes)),
{
    if paddles_in_band(scene) {
        assert forall|i: int|
            0 <= i < steer(scene, axes).bodies.len() && (#[trigger] steer(
                scene,
                axes,
            ).bodies[i]).paddle is Some && steer(scene, axes).bodies[i].transform is Some
            implies lowest() <= steer(scene, axes).bodies[i].transform.unwrap().y
            <= highest() by {
            assert(scene.bodies[i].paddle is Some);
        }
    }
}

/// A tick keeps a game in play, whatever the axes say and however much time has passed.
pub proof fn tick_keeps_in_play(scene: Scene, axes: Axes, millis: int)
    requires
        in_play(scene),
    ensures
        in_play(scene.ticked(axes, millis)),
        scene.tally.left <= scene.ticked(axes, millis).tally.left,
        scene.tally.right <= scene.ticked(axes, millis).tally.right,
        goals(flown(steer(scene, axes), millis).bodies).len() <= 1,
{
    let steered_scene = steer(scene, axes);
    let flown_scene = flown(steered_scene, millis);
    let last = scene.ticked(axes, millis);
    tick_keeps_playable(scene, axes, millis);
    tick_keeps_cast(scene, axes, millis);
    steer_keeps_paddles_in_band(scene, axes);
    tallied_stays_in_range(scene.tally, goals(flown_scene.bodies));
    assert forall|i: int| 0 <= i < last.bodies.len() implies !((#[trigger] last.bodies[i]).paddle
        is Some && last.bodies[i].ball is Some) by {
        assert(same_kind(scene.bodies[i], last.bodies[i]));
    }
    assert forall|i: int|
        0 <= i < last.bodies.len() && (#[trigger] last.bodies[i]).paddle is Some
            && last.bodies[i].transform is Some implies lowest()
        <= last.bodies[i].transform.unwrap().y <= highest() by {
        assert(same_kind(scene.bodies[i], last.bodies[i]));
        assert(steered_scene.bodies[i] == steered(scene.bodies[i], axes));
        assert(flown_scene.bodies[i] == carried(steered_scene.bodies[i], millis));
        assert(last.bodies[i] == served(flown_scene.bodies[i]));
        assert(steered_scene.bodies[i].paddle is Some);
    }
    assert(goals(flown_scene.bodies).len() <= 1) by {
        tick_keeps_cast(steered_scene, axes, millis);
        assert forall|i: int| 0 <= i < scene.bodies.len() implies same_kind(
            #[trigger] scene.bodies[i],
            flown_scene.bodies[i],
        ) by {
            assert(steered_scene.bodies[i] == steered(scene.bodies[i], axes));
            assert(flown_scene.bodies[i] == carried(steered_scene.bodies[i], millis));
        }
        same_cast_same_counts(scene.bodies, flown_scene.bodies);
        goals_at_most_balls(flown_scene.bodies);
    }
}

/// The setup of an empty world gives a game in play, with no point scored.
pub proof fn setup_is_in_play(scene: Scene)
    requires
        scene.bodies.len() == 0,
        scene.tally.in_range(),
    ensures
        in_play(scene.started()),
        scene.started().tally == scene.tally,
{
    let bodies = scene.started().bodies;
    assert(bodies.len() == 5);
    assert(bodies[0] == Body::ball_at_start());
    assert(bodies[1] == Body::paddle_at_start(Side::Left));
    assert(bodies[2] == Body::paddle_at_start(Side::Right));
    assert(bodies[3] == Body::bare());
    assert(bodies[4] == Body::bare());
    let four = bodies.drop_last();
    let three = four.drop_last();
    let two = three.drop_last();
    let one = two.drop_last();
    let none = one.drop_last();
    assert(none.len() == 0);
    assert(one.last() == bodies[0]);
    assert(two.last() == bodies[1]);
    assert(three.last() == bodies[2]);
    assert(four.last() == bodies[3]);
    assert(ball_count(none) == 0);
    assert(ball_count(one) == 1);
    assert(ball_count(two) == 1);
    assert(ball_count(three) == 1);
    assert(ball_count(four) == 1);
    assert(paddle_count(none, Side::Left) == 0);
    assert(paddle_count(one, Side::Left) == 0);
    assert(paddle_count(two, Side::Left) == 1);
    assert(paddle_count(three, Side::Left) == 1);
    assert(paddle_count(four, Side::Left) == 1);
    assert(paddle_count(none, Side::Right) == 0);
    assert(paddle_count(one, Side::Right) == 0);
    assert(paddle_count(two, Side::Right) == 0);
    assert(paddle_count(three, Side::Right) == 1);
    assert(paddle_count(four, Side::Right) == 1);
}

/// From the setup on, after any run of ticks with any input, the game is in
/// play: in particular every paddle lies inside the band and no score has
/// left the range of the board.
pub proof fn play_stays_in_play(scene: Scene, frames: Seq<Frame>)
    requires
        in_play(scene),
    ensures
        in_play(played(scene, frames)),
        scene.tally.left <= played(scene, frames).tally.left,
        scene.tally.right <= played(scene, frames).tally.right,
    decreases frames.len(),
{
    if frames.len() > 0 {
        play_stays_in_play(scene, frames.drop_last());
        tick_keeps_in_play(
            played(scene, frames.drop_last()),
            frames.last().axes,
            frames.last().millis as int,
        );
    }
}

} // verus!
