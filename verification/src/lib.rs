//! Procedural world generation for an unbounded grid of rectangular map
//! areas.
//!
//! A `world::WorldMap` lazily grows a graph of `area::Area`s keyed by
//! integer grid coordinate.  Every area owns a set of open exits and a fully
//! carved terrain grid; adjacent areas always agree on whether the edge
//! between them is passable (exit reciprocity), and the carved paths of
//! neighbouring areas line up because the path geometry is fixed and only the
//! presence of each arm varies.  All random decisions come from a seeded
//! linear-congruential generator, so the whole world is a deterministic
//! function of the global seed and the sequence of moves.

pub mod area;
pub mod exits;
pub mod minimap;
pub mod models;
pub mod rng;
pub mod scenery;
pub mod terrain;
pub mod tiling;
pub mod world;
