use pong::pong::{
    initialise_paddles, initialize_ball, initialize_scoreboard, Ball, Components, Entity, Paddle,
    Pong, ScoreBoard, ScoreText, SetupError, Side, Transform, World, ARENA_HEIGHT, ARENA_WIDTH,
    BALL_RADIUS, BALL_VELOCITY_X, BALL_VELOCITY_Y, PADDLE_HEIGHT, PADDLE_WIDTH,
};
use pong::units::UNIT;

fn ball() -> Components {
    Components {
        transform: Some(Transform { x: 50 * UNIT, y: 50 * UNIT }),
        paddle: None,
        ball: Some(Ball { velocity: [50_000, 25_000], radius: 2 * UNIT }),
    }
}

fn paddle(side: Side) -> Components {
    Components {
        transform: Some(Transform { x: 0, y: 50 * UNIT }),
        paddle: Some(Paddle::new(side)),
        ball: None,
    }
}

fn world_of(entities: Vec<Components>) -> World {
    World { entities, scores: ScoreBoard::default(), score_text: None }
}

#[test]
fn the_constants_are_those_of_the_game() {
    assert_eq!(ARENA_HEIGHT, 100 * UNIT);
    assert_eq!(ARENA_WIDTH, 100 * UNIT);
    assert_eq!(PADDLE_HEIGHT, 16 * UNIT);
    assert_eq!(PADDLE_WIDTH, 4 * UNIT);
    assert_eq!(BALL_VELOCITY_X, 50_000);
    assert_eq!(BALL_VELOCITY_Y, 25_000);
    assert_eq!(BALL_RADIUS, 2 * UNIT);
}

#[test]
fn a_new_paddle_has_unit_size() {
    assert_eq!(Paddle::new(Side::Left), Paddle { side: Side::Left, width: UNIT, height: UNIT });
    assert_eq!(Paddle::new(Side::Right), Paddle { side: Side::Right, width: UNIT, height: UNIT });
}

#[test]
fn a_new_world_is_empty() {
    let world = World::new();
    assert_eq!(world.entities, Vec::new());
    assert_eq!(world.scores, ScoreBoard { score_left: 0, score_right: 0 });
    assert_eq!(world.score_text, None);
}

#[test]
fn entities_are_named_by_their_place() {
    let mut world = World::new();
    assert_eq!(world.create_entity(Components::bare()), Entity { id: 0 });
    assert_eq!(world.create_entity(ball()), Entity { id: 1 });
    assert_eq!(world.create_entity(paddle(Side::Left)), Entity { id: 2 });
    assert_eq!(world.entities, vec![Components::bare(), ball(), paddle(Side::Left)]);
}

#[test]
fn the_ball_starts_in_the_middle() {
    let mut world = World::new();
    assert_eq!(initialize_ball(&mut world), Entity { id: 0 });
    assert_eq!(world.entities, vec![ball()]);
}

#[test]
fn the_paddles_start_half_way_up_their_walls() {
    let mut world = World::new();
    assert_eq!(initialise_paddles(&mut world), (Entity { id: 0 }, Entity { id: 1 }));
    assert_eq!(
        world.entities,
        vec![
            Components {
                transform: Some(Transform { x: 2 * UNIT, y: 50 * UNIT }),
                paddle: Some(Paddle { side: Side::Left, width: UNIT, height: UNIT }),
                ball: None,
            },
            Components {
                transform: Some(Transform { x: 98 * UNIT, y: 50 * UNIT }),
                paddle: Some(Paddle { side: Side::Right, width: UNIT, height: UNIT }),
                ball: None,
            },
        ]
    );
}

#[test]
fn the_score_displays_are_named_for_the_scoring() {
    let mut world = World::new();
    world.create_entity(ball());
    let handles = initialize_scoreboard(&mut world);
    assert_eq!(handles, ScoreText { p1_score: Entity { id: 1 }, p2_score: Entity { id: 2 } });
    assert_eq!(world.score_text, Some(handles));
    assert_eq!(world.entities, vec![ball(), Components::bare(), Components::bare()]);
    assert_eq!(world.scores, ScoreBoard { score_left: 0, score_right: 0 });
}

#[test]
fn the_setup_brings_five_entities() {
    let mut world = World::new();
    Pong.on_start(&mut world);
    assert_eq!(world.entities.len(), 5);
    assert_eq!(world.entities[0], ball());
    assert_eq!(world.entities[1].paddle, Some(Paddle::new(Side::Left)));
    assert_eq!(world.entities[1].transform, Some(Transform { x: 2 * UNIT, y: 50 * UNIT }));
    assert_eq!(world.entities[2].paddle, Some(Paddle::new(Side::Right)));
    assert_eq!(world.entities[2].transform, Some(Transform { x: 98 * UNIT, y: 50 * UNIT }));
    assert_eq!(world.entities[3], Components::bare());
    assert_eq!(world.entities[4], Components::bare());
    assert_eq!(
        world.score_text,
        Some(ScoreText { p1_score: Entity { id: 3 }, p2_score: Entity { id: 4 } })
    );
    assert_eq!(world.scores, ScoreBoard { score_left: 0, score_right: 0 });
    assert_eq!(world.validate(), Ok(()));
}

#[test]
fn the_setup_adds_to_what_is_there() {
    let mut world = World::new();
    world.create_entity(Components::bare());
    world.scores = ScoreBoard { score_left: 2, score_right: 1 };
    Pong.on_start(&mut world);
    assert_eq!(world.entities.len(), 6);
    assert_eq!(world.entities[1], ball());
    assert_eq!(
        world.score_text,
        Some(ScoreText { p1_score: Entity { id: 4 }, p2_score: Entity { id: 5 } })
    );
    assert_eq!(world.scores, ScoreBoard { score_left: 2, score_right: 1 });
}

#[test]
fn the_count_is_of_what_the_systems_act_on() {
    let world = world_of(vec![
        ball(),
        paddle(Side::Left),
        Components { transform: None, paddle: Some(Paddle::new(Side::Left)), ball: None },
        Components { transform: None, paddle: None, ball: ball().ball },
        paddle(Side::Right),
        paddle(Side::Right),
        paddle(Side::Right),
    ]);
    assert_eq!(world.count_balls(), 1);
    assert_eq!(world.count_paddles(Side::Left), 1);
    assert_eq!(world.count_paddles(Side::Right), 3);
    assert_eq!(world.validate(), Err(SetupError::RightPaddles(3)));
}

#[test]
fn a_world_without_a_ball_cannot_be_played() {
    assert_eq!(World::new().validate(), Err(SetupError::Balls(0)));
    let world = world_of(vec![paddle(Side::Left), paddle(Side::Right)]);
    assert_eq!(world.validate(), Err(SetupError::Balls(0)));
}

#[test]
fn a_world_with_two_balls_cannot_be_played() {
    let world = world_of(vec![ball(), paddle(Side::Left), ball(), paddle(Side::Right)]);
    assert_eq!(world.validate(), Err(SetupError::Balls(2)));
}

#[test]
fn a_world_without_a_left_paddle_cannot_be_played() {
    let world = world_of(vec![ball(), paddle(Side::Right)]);
    assert_eq!(world.validate(), Err(SetupError::LeftPaddles(0)));
    let twice = world_of(vec![paddle(Side::Left), ball(), paddle(Side::Left)]);
    assert_eq!(twice.validate(), Err(SetupError::LeftPaddles(2)));
}

#[test]
fn a_world_without_a_right_paddle_cannot_be_played() {
    let world = world_of(vec![ball(), paddle(Side::Left)]);
    assert_eq!(world.validate(), Err(SetupError::RightPaddles(0)));
}

#[test]
fn a_world_with_its_ball_and_paddles_can_be_played() {
    let world = world_of(vec![
        paddle(Side::Right),
        Components::bare(),
        ball(),
        paddle(Side::Left),
    ]);
    assert_eq!(world.validate(), Ok(()));
}
