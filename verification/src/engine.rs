pub mod actions;
pub mod game;
pub mod player;
pub mod turn;
