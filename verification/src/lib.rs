//! Procedural generation of grid maps whose tiles agree about every shared wall.
//!
//! A map is a rectangle of tiles. Each tile opens a set of compass exits, and a
//! step between two neighbouring cells is legal only when both tiles open the
//! wall between them. Tiles are produced one by one, in a fixed scan order, by a
//! generator that sees the tiles placed before.

pub mod direction;
pub mod grid;
pub mod map_tile;
pub mod random;
pub mod tile_generator;
pub mod tile_map;

pub use direction::Direction;
pub use grid::{GridPos, TileGrid};
pub use map_tile::{MapTile, Tile, TileSet};
pub use random::{Probability, ProbabilityError, RandomSource, SourceState};
pub use tile_generator::{GeneratorState, TileGenerator, TileGeneratorDefault};
pub use tile_map::TileMap;
