use pong::pong::{
    Ball, Components, Entity, Paddle, ScoreBoard, ScoreText, Side, Transform, World, ARENA_WIDTH,
    MAX_SCORE,
};
use pong::systems::winner::{judge, judge_entity, Goal, Label};
use pong::systems::WinnerSystem;
use pong::units::UNIT;

fn ball_at(x: i64, y: i64, velocity: [i64; 2]) -> Components {
    Components {
        transform: Some(Transform { x, y }),
        paddle: None,
        ball: Some(Ball { velocity, radius: 2 * UNIT }),
    }
}

fn handles() -> ScoreText {
    ScoreText { p1_score: Entity { id: 3 }, p2_score: Entity { id: 4 } }
}

#[test]
fn ball_on_the_left_line_scores_for_the_right() {
    let mut ball = Ball { velocity: [-50_000, 25_000], radius: 2_000_000 };
    let mut transform = Transform { x: 2_000_000, y: 40_000_000 };
    assert_eq!(judge(&mut ball, &mut transform), Some(Side::Right));
    assert_eq!(transform, Transform { x: 50_000_000, y: 40_000_000 });
    assert_eq!(ball.velocity, [50_000, 25_000]);
}

#[test]
fn ball_one_step_off_the_left_line_does_not_score() {
    let mut ball = Ball { velocity: [-50_000, 25_000], radius: 2_000_000 };
    let mut transform = Transform { x: 2_000_001, y: 40_000_000 };
    assert_eq!(judge(&mut ball, &mut transform), None);
    assert_eq!(transform, Transform { x: 2_000_001, y: 40_000_000 });
    assert_eq!(ball, Ball { velocity: [-50_000, 25_000], radius: 2_000_000 });
}

#[test]
fn ball_beyond_the_left_line_scores_for_the_right() {
    let mut ball = Ball { velocity: [-50_000, 25_000], radius: 2 * UNIT };
    let mut transform = Transform { x: -30 * UNIT, y: 0 };
    assert_eq!(judge(&mut ball, &mut transform), Some(Side::Right));
    assert_eq!(transform, Transform { x: 50 * UNIT, y: 0 });
}

#[test]
fn ball_on_the_right_line_scores_for_the_left() {
    let mut ball = Ball { velocity: [50_000, 25_000], radius: 2 * UNIT };
    let mut transform = Transform { x: 98 * UNIT, y: 130 * UNIT };
    assert_eq!(judge(&mut ball, &mut transform), Some(Side::Left));
    assert_eq!(transform, Transform { x: 50 * UNIT, y: 130 * UNIT });
    assert_eq!(ball, Ball { velocity: [-50_000, 25_000], radius: 2 * UNIT });
}

#[test]
fn ball_one_step_off_the_right_line_does_not_score() {
    let mut ball = Ball { velocity: [50_000, 25_000], radius: 2 * UNIT };
    let mut transform = Transform { x: 98 * UNIT - 1, y: 10 };
    assert_eq!(judge(&mut ball, &mut transform), None);
    assert_eq!(transform, Transform { x: 98 * UNIT - 1, y: 10 });
    assert_eq!(ball.velocity, [50_000, 25_000]);
}

#[test]
fn ball_in_the_middle_does_not_score() {
    let mut ball = Ball { velocity: [50_000, 25_000], radius: 2 * UNIT };
    let mut transform = Transform { x: ARENA_WIDTH / 2, y: 50 * UNIT };
    assert_eq!(judge(&mut ball, &mut transform), None);
}

#[test]
fn a_ball_as_wide_as_the_arena_scores_for_the_right_first() {
    let mut ball = Ball { velocity: [1, 1], radius: 60 * UNIT };
    let mut transform = Transform { x: 50 * UNIT, y: 0 };
    assert_eq!(judge(&mut ball, &mut transform), Some(Side::Right));
    assert_eq!(ball.velocity, [-1, 1]);
}

#[test]
fn the_goal_lines_follow_the_radius_of_the_ball() {
    let mut small = Ball { velocity: [-1, 0], radius: 0 };
    let mut transform = Transform { x: 1, y: 0 };
    assert_eq!(judge(&mut small, &mut transform), None);
    let mut transform = Transform { x: 0, y: 0 };
    assert_eq!(judge(&mut small, &mut transform), Some(Side::Right));
    let mut large = Ball { velocity: [3, 0], radius: 10 * UNIT };
    let mut transform = Transform { x: 90 * UNIT, y: 0 };
    assert_eq!(judge(&mut large, &mut transform), Some(Side::Left));
}

#[test]
fn extreme_radii_do_not_overflow() {
    let mut ball = Ball { velocity: [5, 0], radius: i64::MIN };
    let mut transform = Transform { x: i64::MAX, y: 0 };
    assert_eq!(judge(&mut ball, &mut transform), None);
    let mut ball = Ball { velocity: [5, 0], radius: i64::MAX };
    let mut transform = Transform { x: i64::MAX, y: 0 };
    assert_eq!(judge(&mut ball, &mut transform), Some(Side::Right));
    let mut ball = Ball { velocity: [5, 0], radius: i64::MIN };
    let mut transform = Transform { x: i64::MIN, y: 0 };
    assert_eq!(judge(&mut ball, &mut transform), Some(Side::Right));
}

#[test]
fn the_lowest_velocity_turns_into_the_highest() {
    let mut ball = Ball { velocity: [i64::MIN, 9], radius: 2 * UNIT };
    let mut transform = Transform { x: 0, y: 0 };
    assert_eq!(judge(&mut ball, &mut transform), Some(Side::Right));
    assert_eq!(ball.velocity, [i64::MAX, 9]);
}

#[test]
fn board_stops_at_the_highest_score() {
    let mut board = ScoreBoard { score_left: 0, score_right: 999 };
    assert_eq!(board.award(Side::Right), 999);
    assert_eq!(board.award(Side::Right), 999);
    assert_eq!(board, ScoreBoard { score_left: 0, score_right: 999 });
}

#[test]
fn board_counts_up_to_the_highest_score() {
    assert_eq!(MAX_SCORE, 999);
    let mut board = ScoreBoard::default();
    assert_eq!(board, ScoreBoard { score_left: 0, score_right: 0 });
    let mut n: i32 = 0;
    while n < 1_500 {
        let before = board.score_left;
        let after = board.award(Side::Left);
        assert!(before <= after && after <= 999);
        assert_eq!(after, if before < 999 { before + 1 } else { 999 });
        assert_eq!(board.score_right, 0);
        n += 1;
    }
    assert_eq!(board, ScoreBoard { score_left: 999, score_right: 0 });
}

#[test]
fn board_gives_the_point_to_the_side_that_scored() {
    let mut board = ScoreBoard { score_left: 5, score_right: 7 };
    assert_eq!(board.award(Side::Left), 6);
    assert_eq!(board, ScoreBoard { score_left: 6, score_right: 7 });
    assert_eq!(board.award(Side::Right), 8);
    assert_eq!(board, ScoreBoard { score_left: 6, score_right: 8 });
    let mut last = ScoreBoard { score_left: 998, score_right: 998 };
    assert_eq!(last.award(Side::Left), 999);
    assert_eq!(last.award(Side::Right), 999);
}

#[test]
fn a_board_beyond_its_range_comes_back_to_the_highest_score() {
    let mut board = ScoreBoard { score_left: i32::MAX, score_right: 1_000 };
    assert_eq!(board.award(Side::Left), 999);
    assert_eq!(board.award(Side::Right), 999);
    let mut below = ScoreBoard { score_left: -5, score_right: i32::MIN };
    assert_eq!(below.award(Side::Left), -4);
    assert_eq!(below.award(Side::Right), i32::MIN + 1);
}

#[test]
fn each_side_has_its_own_display() {
    assert_eq!(handles().target(Side::Left), Entity { id: 3 });
    assert_eq!(handles().target(Side::Right), Entity { id: 4 });
}

#[test]
fn only_an_entity_with_ball_and_position_scores() {
    let mut nowhere = Components {
        transform: None,
        paddle: None,
        ball: Some(Ball { velocity: [-50_000, 0], radius: 2 * UNIT }),
    };
    assert_eq!(judge_entity(&mut nowhere), None);
    assert_eq!(nowhere.ball, Some(Ball { velocity: [-50_000, 0], radius: 2 * UNIT }));
    let mut paddle = Components {
        transform: Some(Transform { x: 0, y: 50 * UNIT }),
        paddle: Some(Paddle::new(Side::Left)),
        ball: None,
    };
    assert_eq!(judge_entity(&mut paddle), None);
    assert_eq!(paddle.transform, Some(Transform { x: 0, y: 50 * UNIT }));
    let mut ball = ball_at(0, 5, [-50_000, 25_000]);
    assert_eq!(judge_entity(&mut ball), Some(Side::Right));
    assert_eq!(ball, ball_at(50 * UNIT, 5, [50_000, 25_000]));
}

#[test]
fn a_goal_is_told_with_the_new_scores() {
    let mut world = World {
        entities: vec![ball_at(UNIT, 70 * UNIT, [-50_000, 25_000])],
        scores: ScoreBoard { score_left: 4, score_right: 9 },
        score_text: Some(handles()),
    };
    let told = WinnerSystem.run(&mut world);
    assert_eq!(
        told,
        vec![Goal {
            scorer: Side::Right,
            line: String::from("Score: 4 10"),
            label: Some(Label { target: Entity { id: 4 }, text: String::from("10") }),
        }]
    );
    assert_eq!(world.scores, ScoreBoard { score_left: 4, score_right: 10 });
    assert_eq!(world.entities, vec![ball_at(50 * UNIT, 70 * UNIT, [50_000, 25_000])]);
    assert_eq!(world.score_text, Some(handles()));
}

#[test]
fn a_goal_for_the_left_goes_to_the_left_display() {
    let mut world = World {
        entities: vec![ball_at(99 * UNIT, 70 * UNIT, [50_000, 25_000])],
        scores: ScoreBoard { score_left: 0, score_right: 0 },
        score_text: Some(handles()),
    };
    let told = WinnerSystem.run(&mut world);
    assert_eq!(
        told,
        vec![Goal {
            scorer: Side::Left,
            line: String::from("Score: 1 0"),
            label: Some(Label { target: Entity { id: 3 }, text: String::from("1") }),
        }]
    );
    assert_eq!(world.scores, ScoreBoard { score_left: 1, score_right: 0 });
}

#[test]
fn without_displays_the_point_still_counts() {
    let mut world = World {
        entities: vec![ball_at(UNIT, 70 * UNIT, [-50_000, 25_000])],
        scores: ScoreBoard { score_left: 4, score_right: 9 },
        score_text: None,
    };
    let told = WinnerSystem.run(&mut world);
    assert_eq!(
        told,
        vec![Goal { scorer: Side::Right, line: String::from("Score: 4 10"), label: None }]
    );
    assert_eq!(world.scores, ScoreBoard { score_left: 4, score_right: 10 });
    assert_eq!(world.entities, vec![ball_at(50 * UNIT, 70 * UNIT, [50_000, 25_000])]);
}

#[test]
fn no_goal_is_no_change() {
    let before = World {
        entities: vec![ball_at(30 * UNIT, 70 * UNIT, [-50_000, 25_000]), Components::bare()],
        scores: ScoreBoard { score_left: 4, score_right: 9 },
        score_text: Some(handles()),
    };
    let mut world = before.clone();
    let told = WinnerSystem.run(&mut world);
    assert_eq!(told, Vec::new());
    assert_eq!(world, before);
}

#[test]
fn a_full_score_is_told_as_it_stays() {
    let mut world = World {
        entities: vec![ball_at(UNIT, 0, [-50_000, 25_000])],
        scores: ScoreBoard { score_left: 12, score_right: 999 },
        score_text: Some(handles()),
    };
    let mut round: u32 = 0;
    while round < 3 {
        world.entities[0] = ball_at(UNIT, 0, [-50_000, 25_000]);
        let told = WinnerSystem.run(&mut world);
        assert_eq!(
            told,
            vec![Goal {
                scorer: Side::Right,
                line: String::from("Score: 12 999"),
                label: Some(Label { target: Entity { id: 4 }, text: String::from("999") }),
            }]
        );
        assert_eq!(world.scores, ScoreBoard { score_left: 12, score_right: 999 });
        round += 1;
    }
}

#[test]
fn several_balls_score_in_the_order_of_the_table() {
    let mut world = World {
        entities: vec![
            ball_at(UNIT, 1, [-50_000, 25_000]),
            ball_at(50 * UNIT, 2, [50_000, 25_000]),
            ball_at(99 * UNIT, 3, [50_000, 25_000]),
            ball_at(-UNIT, 4, [-7, 0]),
        ],
        scores: ScoreBoard { score_left: 998, score_right: 8 },
        score_text: Some(handles()),
    };
    let told = WinnerSystem.run(&mut world);
    assert_eq!(
        told,
        vec![
            Goal {
                scorer: Side::Right,
                line: String::from("Score: 998 9"),
                label: Some(Label { target: Entity { id: 4 }, text: String::from("9") }),
            },
            Goal {
                scorer: Side::Left,
                line: String::from("Score: 999 9"),
                label: Some(Label { target: Entity { id: 3 }, text: String::from("999") }),
            },
            Goal {
                scorer: Side::Right,
                line: String::from("Score: 999 10"),
                label: Some(Label { target: Entity { id: 4 }, text: String::from("10") }),
            },
        ]
    );
    assert_eq!(world.scores, ScoreBoard { score_left: 999, score_right: 10 });
    assert_eq!(
        world.entities,
        vec![
            ball_at(50 * UNIT, 1, [50_000, 25_000]),
            ball_at(50 * UNIT, 2, [50_000, 25_000]),
            ball_at(50 * UNIT, 3, [-50_000, 25_000]),
            ball_at(50 * UNIT, 4, [7, 0]),
        ]
    );
}

#[test]
fn the_scoring_of_an_empty_world_does_nothing() {
    let mut world = World::new();
    assert_eq!(WinnerSystem.run(&mut world), Vec::new());
    assert_eq!(world, World::new());
}
