//! A snake game's simulation: a toroidal grid, a snake that grows when it
//! eats fruit, an input mapper with a reversal guard, a fixed-step movement
//! timer and the per-frame update that ties them together.
pub mod grid;
pub mod snake;
pub mod input;
pub mod timer;
pub mod fruit;
pub mod game;
