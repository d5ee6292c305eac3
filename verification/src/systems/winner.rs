//! Scoring: a ball that reaches a goal line gives the other side a point,
//! turns round and goes back to the middle of the arena.

use crate::pong::{
    ball_count, Ball, BallModel, Body, Components, Entity, Point, Scene, ScoreText, Side, Tally,
    Transform, World, ARENA_WIDTH, MAX_SCORE,
};
use crate::text::{decimal, decimal_string, score_line, score_line_string};
use crate::units::{reverse, reversed, reversed_flips_sign};
use vstd::prelude::*;

verus! {

/// The side that gets a point for a ball at `at`, if any. The left goal line is
/// looked at first.
pub open spec fn goal(at: Point, ball: BallModel) -> Option<Side> {
    if at.x <= ball.radius {
        Some(Side::Right)
    } else if at.x >= ARENA_WIDTH - ball.radius {
        Some(Side::Left)
    } else {
        None
    }
}

/// The ball after a goal: it travels the other way along x, as fast as before.
pub open spec fn turned(ball: BallModel) -> BallModel {
    BallModel { vx: reversed(ball.vx), vy: ball.vy, radius: ball.radius }
}

/// The place of the ball after a goal: half-way across the arena, at the height it had.
pub open spec fn recentred(at: Point) -> Point {
    Point { x: ARENA_WIDTH / 2, y: at.y }
}

/// The side that gets a point for what this entity owns. Only an entity with
/// both a ball and a position can score.
pub open spec fn body_goal(body: Body) -> Option<Side> {
    if body.ball is Some && body.transform is Some {
        goal(body.transform.unwrap(), body.ball.unwrap())
    } else {
        None
    }
}

/// What an entity owns after the scoring has looked at it.
pub open spec fn served(body: Body) -> Body {
    if body_goal(body) is Some {
        Body {
            transform: Some(recentred(body.transform.unwrap())),
            paddle: body.paddle,
            ball: Some(turned(body.ball.unwrap())),
        }
    } else {
        body
    }
}

/// The goals of one tick, in the order of the entity table.
pub open spec fn goals(bodies: Seq<Body>) -> Seq<Side>
    decreases bodies.len(),
{
    if bodies.len() == 0 {
        Seq::empty()
    } else {
        let before = goals(bodies.drop_last());
        match body_goal(bodies.last()) {
            Some(side) => before.push(side),
            None => before,
        }
    }
}

/// The tally after a run of goals.
pub open spec fn tallied(tally: Tally, scored: Seq<Side>) -> Tally
    decreases scored.len(),
{
    if scored.len() == 0 {
        tally
    } else {
        tallied(tally, scored.drop_last()).awarded(scored.last())
    }
}

/// A new text for one of the score displays, as mathematics sees it.
pub struct LabelModel {
    pub target: Entity,
    pub text: Seq<char>,
}

/// A new text for one of the score displays.
#[derive(Clone, Debug, PartialEq, Eq)]
pub struct Label {
    pub target: Entity,
    pub text: String,
}

impl View for Label {
    type V = LabelModel;

    open spec fn view(&self) -> LabelModel {
        LabelModel { target: self.target, text: self.text@ }
    }
}

/// What the scoring tells the outside about one goal, as mathematics sees it.
pub struct GoalModel {
    pub scorer: Side,
    pub line: Seq<char>,
    pub label: Option<LabelModel>,
}

/// What the scoring tells the outside about one goal: who scored, the line
/// for the log, and the new text of the scorer's display where there is one.
#[derive(Clone, Debug, PartialEq, Eq)]
pub struct Goal {
    pub scorer: Side,
    pub line: String,
    pub label: Option<Label>,
}

impl View for Goal {
    type V = GoalModel;

    open spec fn view(&self) -> GoalModel {
        GoalModel {
            scorer: self.scorer,
            line: self.line@,
            label: match self.label {
                Some(label) => Some(label@),
                None => None,
            },
        }
    }
}

/// What is told about a goal of `scorer` that brings the scores to `tally`.
pub open spec fn announced(scorer: Side, tally: Tally, score_text: Option<ScoreText>) -> GoalModel {
    GoalModel {
        scorer,
        line: score_line(tally.left, tally.right),
        label: match score_text {
            Some(handles) => Some(
                LabelModel { target: handles.of(scorer), text: decimal(tally.of(scorer)) },
            ),
            None => None,
        },
    }
}

/// What is told about the `k`-th goal of a tick that starts from `scene`.
pub open spec fn report(scene: Scene, k: int) -> GoalModel {
    let scored = goals(scene.bodies);
    announced(scored[k], tallied(scene.tally, scored.take(k + 1)), scene.score_text)
}

/// The game after the scoring has looked at every entity.
pub open spec fn refereed(scene: Scene) -> Scene {
    Scene {
        bodies: Seq::new(scene.bodies.len(), |i: int| served(scene.bodies[i])),
        tally: tallied(scene.tally, goals(scene.bodies)),
        score_text: scene.score_text,
    }
}

/// Looks at one ball: where it has reached a goal line, turns it round, puts
/// it back in the middle and says who scored.
pub fn judge(ball: &mut Ball, transform: &mut Transform) -> (scorer: Option<Side>)
    ensures
        scorer == goal(old(transform)@, old(ball)@),
        scorer is Some ==> final(ball)@ == turned(old(ball)@) && final(transform)@ == recentred(
            old(transform)@,
        ),
        scorer is None ==> *final(ball) == *old(ball) && *final(transform) == *old(transform),
{
    let ball_x = transform.x;
    let scorer = if ball_x <= ball.radius {
        Some(Side::Right)
    } else if ball_x as i128 >= ARENA_WIDTH as i128 - ball.radius as i128 {
        Some(Side::Left)
    } else {
        None
    };
    if scorer.is_some() {
        ball.velocity[0] = reverse(ball.velocity[0]);
        transform.x = ARENA_WIDTH / 2;
    }
    scorer
}

/// Looks at one entity: it can score only where it owns both a ball and a position.
pub fn judge_entity(components: &mut Components) -> (scorer: Option<Side>)
    ensures
        scorer == body_goal(old(components)@),
        final(components)@ == served(old(components)@),
{
    match (&mut components.ball, &mut components.transform) {
        (Some(ball), Some(transform)) => judge(ball, transform),
        _ => None,
    }
}

/// The goals among the first `n + 1` entities are those among the first `n`,
/// followed by the goal of entity `n` where it has one.
pub proof fn goals_step(bodies: Seq<Body>, n: int)
    requires
        0 <= n < bodies.len(),
    ensures
        goals(bodies.take(n + 1)) == match body_goal(bodies[n]) {
            Some(side) => goals(bodies.take(n)).push(side),
            None => goals(bodies.take(n)),
        },
{
    assert(bodies.take(n + 1).drop_last() =~= bodies.take(n));
}

/// One more goal raises the tally that the goals before it gave.
pub proof fn tallied_step(tally: Tally, scored: Seq<Side>, side: Side)
    ensures
        tallied(tally, scored.push(side)) == tallied(tally, scored).awarded(side),
{
    assert(scored.push(side).drop_last() =~= scored);
}

/// The scoring system.
pub struct WinnerSystem;

impl WinnerSystem {
    /// Looks at every entity that owns a ball and a position, in the order of
    /// the entity table. Each goal gives a point, and is told to the caller
    /// with the scores as they stand right after it.
    pub fn run(&mut self, world: &mut World) -> (told: Vec<Goal>)
        ensures
            final(world)@ == refereed(old(world)@),
            told@.len() == goals(old(world)@.bodies).len(),
            forall|k: int|
                0 <= k < told@.len() ==> (#[trigger] told@[k])@ == report(old(world)@, k),
    {
        let ghost before = world@;
        let mut told: Vec<Goal> = Vec::new();
        let n = world.entities.len();
        let mut i: usize = 0;
        proof {
            assert(before.bodies.take(0) =~= Seq::<Body>::empty());
        }
        while i < n
            invariant
                i <= n,
                n == world.entities.len(),
                before == old(world)@,
                before.bodies.len() == n,
                world.score_text == before.score_text,
                forall|j: int|
                    0 <= j < i ==> (#[trigger] world.entities[j])@ == served(before.bodies[j]),
                forall|j: int|
                    i <= j < n ==> (#[trigger] world.entities[j])@ == before.bodies[j],
                world.scores@ == tallied(before.tally, goals(before.bodies.take(i as int))),
                told@.len() == goals(before.bodies.take(i as int)).len(),
                forall|k: int|
                    0 <= k < told@.len() ==> (#[trigger] told@[k])@ == announced(
                        goals(before.bodies.take(i as int))[k],
                        tallied(before.tally, goals(before.bodies.take(i as int)).take(k + 1)),
                        before.score_text,
                    ),
            decreases n - i,
        {
            let ghost so_far = goals(before.bodies.take(i as int));
            proof {
                goals_step(before.bodies, i as int);
            }
            let scorer = judge_entity(&mut world.entities[i]);
            match scorer {
                Some(side) => {
                    let score = world.scores.award(side);
                    let line = score_line_string(
                        world.scores.score_left,
                        world.scores.score_right,
                    );
                    let label = match &world.score_text {
                        Some(handles) => Some(
                            Label { target: handles.target(side), text: decimal_string(score) },
                        ),
                        None => None,
                    };
                    told.push(Goal { scorer: side, line, label });
                    proof {
                        let now = so_far.push(side);
                        tallied_step(before.tally, so_far, side);
                        assert(now.take(now.len() as int) =~= now);
                        assert forall|k: int| 0 <= k < told@.len() implies (#[trigger] told@[k])@
                            == announced(
                            now[k],
                            tallied(before.tally, now.take(k + 1)),
                            before.score_text,
                        ) by {
                            if k < so_far.len() {
                                assert(now.take(k + 1) =~= so_far.take(k + 1));
                            }
                        }
                    }
                },
                None => {},
            }
            i = i + 1;
        }
        proof {
            assert(before.bodies.take(n as int) =~= before.bodies);
            assert(world@.bodies =~= refereed(before).bodies);
        }
        told
    }
}

/// The right side scores exactly when the ball's centre is no further from the
/// left wall than its radius. The left side scores exactly when that is not
/// so and the centre is no further from the right wall than the radius.
pub proof fn goal_at_the_line(at: Point, ball: BallModel)
    ensures
        goal(at, ball) == Some(Side::Right) <==> at.x <= ball.radius,
        goal(at, ball) == Some(Side::Left) <==> at.x > ball.radius && at.x >= ARENA_WIDTH
            - ball.radius,
        goal(at, ball) is None <==> ball.radius < at.x < ARENA_WIDTH - ball.radius,
{
}

/// A ball that is narrower than the arena cannot be on both goal lines at once.
pub proof fn goal_lines_apart(at: Point, ball: BallModel)
    requires
        2 * ball.radius < ARENA_WIDTH,
    ensures
        !(at.x <= ball.radius && at.x >= ARENA_WIDTH - ball.radius),
{
}

/// After a goal the ball is half-way across the arena at the height it had,
/// its horizontal velocity has changed sign, and nothing else about it has changed.
pub proof fn served_after_goal(body: Body)
    requires
        body_goal(body) is Some,
        i64::MIN <= body.ball.unwrap().vx <= i64::MAX,
    ensures
        served(body).transform.unwrap().x == ARENA_WIDTH / 2,
        served(body).transform.unwrap().y == body.transform.unwrap().y,
        served(body).ball.unwrap().vy == body.ball.unwrap().vy,
        served(body).ball.unwrap().radius == body.ball.unwrap().radius,
        served(body).paddle == body.paddle,
        body.ball.unwrap().vx > i64::MIN ==> served(body).ball.unwrap().vx
            == -body.ball.unwrap().vx,
        body.ball.unwrap().vx > 0 ==> served(body).ball.unwrap().vx < 0,
        body.ball.unwrap().vx < 0 ==> served(body).ball.unwrap().vx > 0,
{
    reversed_flips_sign(body.ball.unwrap().vx);
}

/// An entity that has not scored is left as it was.
pub proof fn served_without_goal(body: Body)
    requires
        body_goal(body) is None,
    ensures
        served(body) == body,
{
}

/// Scores inside the range of the board stay inside it and never go down,
/// however many goals are scored.
pub proof fn tallied_stays_in_range(tally: Tally, scored: Seq<Side>)
    requires
        tally.in_range(),
    ensures
        tallied(tally, scored).in_range(),
        tally.left <= tallied(tally, scored).left <= tally.left + scored.len(),
        tally.right <= tallied(tally, scored).right <= tally.right + scored.len(),
    decreases scored.len(),
{
    if scored.len() > 0 {
        tallied_stays_in_range(tally, scored.drop_last());
    }
}

/// A side that shows the highest score keeps showing it, whoever scores.
pub proof fn full_score_stays(tally: Tally, scored: Seq<Side>, side: Side)
    requires
        tally.of(side) == MAX_SCORE,
    ensures
        tallied(tally, scored).of(side) == MAX_SCORE,
    decreases scored.len(),
{
    if scored.len() > 0 {
        full_score_stays(tally, scored.drop_last(), side);
    }
}

/// A tick has no more goals than the game has balls.
pub proof fn goals_at_most_balls(bodies: Seq<Body>)
    ensures
        goals(bodies).len() <= ball_count(bodies),
    decreases bodies.len(),
{
    if bodies.len() > 0 {
        goals_at_most_balls(bodies.drop_last());
    }
}

} // verus!
