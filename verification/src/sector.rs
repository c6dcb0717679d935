//! One map tile's full terrain and economic state.

use crate::designation::Designation;
use crate::elevation::Elevation;
use crate::vegetation::Vegetation;
use vstd::prelude::*;

verus! {

/// One map tile: its terrain categories, owner, population, production
/// capacities and stockpiles.
///
/// The owner field is a plain nation identifier correlated by value, not a
/// structural reference: the model does not enforce referential integrity,
/// so a dangling owner identifier is representable and not rejected.
#[derive(Clone, Copy, Debug, PartialEq, Eq, Structural)]
pub struct Sector {
    /// Developed-use category of the tile.
    pub designation: Designation,
    /// Terrain height category of the tile.
    pub altitude: Elevation,
    /// Terrain cover category of the tile.
    pub vegetation: Vegetation,
    /// Nation identifier of the owner; a lookup key, not ownership.
    pub owner: u8,
    /// Civilians in the sector.
    pub people: i32,
    /// Initial civilians in the sector.
    pub i_people: i16,
    /// Jewel production ability.
    pub jewels: u8,
    /// Fortification level; 0 to 12 by convention, not enforced by the type.
    pub fortress: u8,
    /// Metal produced by the sector.
    pub metal: u8,
    /// Exotic trade goods in the sector.
    pub tradegood: u8,
    /// Index of the region; unused.
    pub region: u8,
    /// Food stored in the sector.
    pub foodstore: i32,
    /// Jewels stored in the sector.
    pub jewelstore: i32,
    /// Metal stored in the sector.
    pub metalstore: i32,
}

impl Default for Sector {
    /// A baseline tile: water with no vegetation and no designation — the
    /// named baseline variants of each terrain family, chosen explicitly —
    /// and every numeric production and stockpile field zero.
    fn default() -> (s: Sector)
        ensures
            s == (Sector {
                designation: Designation::NONE,
                altitude: Elevation::WATER,
                vegetation: Vegetation::NONE,
                owner: 0,
                people: 0,
                i_people: 0,
                jewels: 0,
                fortress: 0,
                metal: 0,
                tradegood: 0,
                region: 0,
                foodstore: 0,
                jewelstore: 0,
                metalstore: 0,
            }),
    {
        Sector {
            designation: Designation::NONE,
            altitude: Elevation::WATER,
            vegetation: Vegetation::NONE,
            owner: 0,
            people: 0,
            i_people: 0,
            jewels: 0,
            fortress: 0,
            metal: 0,
            tradegood: 0,
            region: 0,
            foodstore: 0,
            jewelstore: 0,
            metalstore: 0,
        }
    }
}

} // verus!
