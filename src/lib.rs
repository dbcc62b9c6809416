pub mod rng;
pub mod screen;
pub mod game;
pub mod laws;

pub use game::LetterMover;
pub use rng::{add1, rand, safe_add, sub1};
