//! The rules of the game, one system for each: they run once per tick, the
//! paddles first, then the ball's motion, then the scoring.

pub mod move_balls;
pub mod paddle;
pub mod winner;

pub use self::move_balls::MoveBallsSystem;
pub use self::paddle::PaddleSystem;
pub use self::winner::WinnerSystem;
