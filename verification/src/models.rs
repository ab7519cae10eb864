//! Small shared value types: render layers and unit-bearing measurements.

use vstd::prelude::*;

verus! {

/// Rendering layers ordered back-to-front by z-index.
#[derive(Clone, Copy, PartialEq, Eq, Structural, Debug)]
pub enum Layer {
    Tilemap,
    SceneryTree,
    Player,
    SceneryBush,
    SceneryFlower,
}

/// The fixed z-index of each layer.
pub open spec fn spec_layer_z(l: Layer) -> u16 {
    match l {
        Layer::Tilemap => 0,
        Layer::SceneryTree => 3,
        Layer::Player => 10,
        Layer::SceneryBush => 11,
        Layer::SceneryFlower => 12,
    }
}

impl Layer {
    /// The fixed z-index this layer maps to.
    pub fn z(self) -> (r: u16)
        ensures
            r == spec_layer_z(self),
    {
        match self {
            Layer::Tilemap => 0,
            Layer::SceneryTree => 3,
            Layer::Player => 10,
            Layer::SceneryBush => 11,
            Layer::SceneryFlower => 12,
        }
    }
}

/// A measurement in tiles (1 tile = 5 ft).
#[derive(Clone, Copy, PartialEq, Eq, Structural, Debug)]
pub struct Tile(pub u16);

/// A distance measurement.
#[derive(Clone, Copy, PartialEq, Eq, Structural, Debug)]
pub struct Distance(pub u16);

/// Speed in tiles per second.
#[derive(Clone, Copy, PartialEq, Eq, Structural, Debug)]
pub struct Speed(pub u16);

} // verus!
