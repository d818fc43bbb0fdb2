//! Verified core of a tile-based roguelike: the dungeon map and its indexing,
//! the map-builder recipes, the game's run-state machine, the player's
//! commands and the configuration file format.

pub mod tiles;
pub mod entity;
pub mod components;
pub mod rng;
pub mod glyph;
pub mod map;
pub mod builders;
pub mod runstate;
pub mod gamelog;
pub mod player;
pub mod movement;
pub mod config;
pub mod level;
pub mod mods;
pub mod spawner;
