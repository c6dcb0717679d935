//! Military formations owned by a nation: army and navy units.

use vstd::prelude::*;

verus! {

/// A land formation: unit type, position, movement allowance, soldier count
/// and status flag. Owned exclusively by exactly one nation.
#[derive(Clone, Copy, Debug, PartialEq, Eq, Structural)]
pub struct Army {
    /// Unit type code.
    pub unittyp: u8,
    /// Position, x coordinate.
    pub xloc: u8,
    /// Position, y coordinate.
    pub yloc: u8,
    /// Movement allowance of the soldiers.
    pub smove: u8,
    /// Soldier count.
    pub sold: i32,
    /// Status flag.
    pub stat: u8,
}

impl Default for Army {
    /// An entirely zero-valued army unit.
    fn default() -> (a: Army)
        ensures
            a == (Army { unittyp: 0, xloc: 0, yloc: 0, smove: 0, sold: 0, stat: 0 }),
    {
        Army { unittyp: 0, xloc: 0, yloc: 0, smove: 0, sold: 0, stat: 0 }
    }
}

/// A naval formation: ship counts, position, movement allowance, crew, and
/// what it carries. The carried army is referenced by its number, not owned.
/// Owned exclusively by exactly one nation.
#[derive(Clone, Copy, Debug, PartialEq, Eq, Structural)]
pub struct Navy {
    /// Warship count.
    pub warships: u16,
    /// Merchant vessel count.
    pub merchant: u16,
    /// Galley count.
    pub galleys: u16,
    /// Position, x coordinate.
    pub xloc: u8,
    /// Position, y coordinate.
    pub yloc: u8,
    /// Movement allowance of the ships.
    pub smove: u8,
    /// Crew on the ships.
    pub crew: u8,
    /// People carried.
    pub people: u8,
    /// Carried commodity placeholder.
    pub commodity: u8,
    /// Number of the carried army: a lookup key into the owning nation's army
    /// list, not an owning reference.
    pub armynum: u8,
}

impl Default for Navy {
    /// An entirely zero-valued navy unit.
    fn default() -> (n: Navy)
        ensures
            n == (Navy {
                warships: 0,
                merchant: 0,
                galleys: 0,
                xloc: 0,
                yloc: 0,
                smove: 0,
                crew: 0,
                people: 0,
                commodity: 0,
                armynum: 0,
            }),
    {
        Navy {
            warships: 0,
            merchant: 0,
            galleys: 0,
            xloc: 0,
            yloc: 0,
            smove: 0,
            crew: 0,
            people: 0,
            commodity: 0,
            armynum: 0,
        }
    }
}

} // verus!
