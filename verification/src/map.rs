pub mod galaxy;
pub mod graph;
pub mod sector;
