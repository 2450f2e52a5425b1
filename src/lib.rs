pub mod config;
pub mod game;
pub mod game_loop;
pub mod render;
pub mod target;
