//! The turn and action engine of a two-player space-conquest game: the game
//! state, the actions that players take on it, the turns that sequence them,
//! and the levels that reward them, each with a contract that Verus proves.
//!
//! `engine` holds the game for two players at one terminal, `map` its sector
//! graph, `fleet` fleets of single ships, `backend` the networked game,
//! `narrative` and `database` what the collaborators around the engine need
//! decided, and `text` the reading and writing of numbers and words.

pub mod backend;
pub mod database;
pub mod engine;
pub mod fleet;
pub mod map;
pub mod narrative;
pub mod text;
