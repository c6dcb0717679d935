//! Data model for a turn-based nation/world strategy simulation: categorical
//! terrain and race encodings with bidirectional character/name/ordinal
//! mappings, entity records (nation, army, navy, sector, world), and an
//! allocator of process-unique nation identifiers.

pub mod designation;
pub mod elevation;
pub mod ids;
pub mod nation;
pub mod race;
pub mod sector;
pub mod units;
pub mod vegetation;
pub mod world;
