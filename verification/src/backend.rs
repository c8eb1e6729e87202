pub mod game;
pub mod websocket;
