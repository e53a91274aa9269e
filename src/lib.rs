pub mod food;
pub mod grid;
pub mod round;
pub mod snake;
pub mod timer;
