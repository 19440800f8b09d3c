//! Grid simulation of the Snake arcade game: wraparound arithmetic, the
//! snake's movement, growth and self-collision, apple placement, and the
//! per-tick state machine of a game.

pub mod apple;
pub mod game;
pub mod grid;
pub mod random;
pub mod snake;

pub use apple::{cell_avoiding, Apple};
pub use game::{ConfigError, Input, MainState};
pub use grid::{modulo, Point};
pub use random::rand_point2;
pub use snake::{is_opposite, Heading, Snake};
