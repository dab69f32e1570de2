//! The rules of the platformer game built on the engine: its map format,
//! its states and the actions of its menus.
pub mod bloom;
pub mod state;
pub mod tiles;
pub mod ui;
