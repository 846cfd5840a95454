pub mod ball;
pub mod game;
pub mod paddle;
mod rng;

pub use ball::Ball;
pub use game::Cell;
pub use game::Game;
pub use game::Key;
pub use paddle::Paddle;
