pub mod draw;
pub mod game;
pub mod grid;
pub mod input;
pub mod menu;
pub mod snake;
pub mod state_machine;
