//! One faction's complete game state, and its construction with a fresh
//! process-unique identifier.

use crate::ids::IdAllocator;
use crate::race::Race;
use crate::units::Army;
use crate::units::Navy;
use vstd::prelude::*;

verus! {

/// One player or non-player faction: identity, text fields, race, capital,
/// treasury and population counters, per-nation modifiers, and the owned
/// collections of army units, navy units and diplomatic statuses.
///
/// A nation exclusively owns its army, navy and diplomatic-status
/// collections; they have no existence independent of the owning nation.
#[derive(Clone, Debug)]
pub struct Nation {
    /// Unique nation identifier, established at construction, never reused.
    pub id: i32,
    /// Display name.
    pub name: String,
    /// Password.
    pub passwd: String,
    /// Leader title.
    pub leader: String,
    /// National race.
    pub race: Race,
    /// Starting-location quality: good, fair, random.
    pub location: i8,
    /// Display mark: the symbol for this nation on the map.
    pub mark: char,
    /// Capital x coordinate.
    pub capx: u8,
    /// Capital y coordinate.
    pub capy: u8,
    /// Nation type and strategy flag.
    pub active: u8,
    /// Maximum movement of soldiers.
    pub maxmove: u8,
    /// Reproduction rate of the nation.
    pub repro: i8,
    /// Score.
    pub score: i32,
    /// Gold in the treasury.
    pub tgold: i32,
    /// Raw amount of jewels in the treasury.
    pub jewels: i32,
    /// Total military.
    pub tmil: i32,
    /// Total civilians.
    pub tciv: i32,
    /// Total real metal in the nation.
    pub metals: i32,
    /// Total food in the nation.
    pub tfood: i32,
    /// National powers, as a bit vector.
    pub powers: i32,
    /// National class.
    pub class: i16,
    /// Attack bonus of all soldiers.
    pub aplus: i16,
    /// Defense bonus of all soldiers.
    pub dplus: i16,
    /// Spell points.
    pub spellpts: i16,
    /// Total number of sectors.
    pub tsctrs: i16,
    /// Number of warships.
    pub tships: i16,
    /// Inflation rate.
    pub inflation: i16,
    /// Charity budget, as a percentage of taxes.
    pub charity: u8,
    /// Owned army units.
    pub arm: Vec<Army>,
    /// Owned naval units.
    pub nvy: Vec<Navy>,
    /// Diplomatic status towards each other nation.
    pub dstatus: Vec<i8>,
    /// Tax rate on the populace.
    pub tax_rate: u8,
    /// The nation's prestige.
    pub prestige: u8,
    /// The government's popularity.
    pub popularity: u8,
    /// Nation power.
    pub power: u8,
    /// Leader communication.
    pub communications: u8,
    /// Per-capita income.
    pub wealth: u8,
    /// Food eaten per 10 people.
    pub eatrate: u8,
    /// Food spoilage rate.
    pub spoilrate: u8,
    /// General knowledge.
    pub knowledge: u8,
    /// Farming ability.
    pub farm_ability: u8,
    /// Mining ability.
    pub mine_ability: u8,
    /// Percentage of poor people.
    pub poverty: u8,
    /// The people's terror of their ruler.
    pub terror: u8,
    /// Reputation of the nation.
    pub reputation: u8,
}

/// Whether every field of a nation other than its identifier and name holds
/// its baseline value: empty text, `UNKNOWN` race, a blank display mark,
/// every numeric counter zero, and every owned collection empty.
pub open spec fn nation_baseline(n: Nation) -> bool {
    &&& n.passwd@.len() == 0
    &&& n.leader@.len() == 0
    &&& n.race == Race::UNKNOWN
    &&& n.location == 0
    &&& n.mark == ' '
    &&& n.capx == 0
    &&& n.capy == 0
    &&& n.active == 0
    &&& n.maxmove == 0
    &&& n.repro == 0
    &&& n.score == 0
    &&& n.tgold == 0
    &&& n.jewels == 0
    &&& n.tmil == 0
    &&& n.tciv == 0
    &&& n.metals == 0
    &&& n.tfood == 0
    &&& n.powers == 0
    &&& n.class == 0
    &&& n.aplus == 0
    &&& n.dplus == 0
    &&& n.spellpts == 0
    &&& n.tsctrs == 0
    &&& n.tships == 0
    &&& n.inflation == 0
    &&& n.charity == 0
    &&& n.arm@.len() == 0
    &&& n.nvy@.len() == 0
    &&& n.dstatus@.len() == 0
    &&& n.tax_rate == 0
    &&& n.prestige == 0
    &&& n.popularity == 0
    &&& n.power == 0
    &&& n.communications == 0
    &&& n.wealth == 0
    &&& n.eatrate == 0
    &&& n.spoilrate == 0
    &&& n.knowledge == 0
    &&& n.farm_ability == 0
    &&& n.mine_ability == 0
    &&& n.poverty == 0
    &&& n.terror == 0
    &&& n.reputation == 0
}

impl Nation {
    /// Draws the next process-unique nation identifier from the given
    /// allocator: each call returns the current counter value and advances
    /// it, so identifiers are strictly increasing with no gaps and never
    /// reused.
    pub fn unique_id(ids: &mut IdAllocator) -> (id: i32)
        requires
            old(ids).issued() < i32::MAX,
        ensures
            id == old(ids).issued(),
            final(ids).issued() == old(ids).issued() + 1,
    {
        ids.allocate()
    }

    /// A fresh nation: the next unique identifier from the allocator, the
    /// non-empty placeholder display name, and every other field at its
    /// baseline value.
    pub fn new(ids: &mut IdAllocator) -> (n: Nation)
        requires
            old(ids).issued() < i32::MAX,
        ensures
            n.id == old(ids).issued(),
            final(ids).issued() == old(ids).issued() + 1,
            n.name@ == "Bob"@,
            nation_baseline(n),
    {
        let name = String::from_str("Bob");
        let passwd = String::from_str("");
        let leader = String::from_str("");
        proof {
            reveal_strlit("");
        }
        Nation {
            id: Nation::unique_id(ids),
            name,
            passwd,
            leader,
            race: Race::UNKNOWN,
            location: 0,
            mark: ' ',
            capx: 0,
            capy: 0,
            active: 0,
            maxmove: 0,
            repro: 0,
            score: 0,
            tgold: 0,
            jewels: 0,
            tmil: 0,
            tciv: 0,
            metals: 0,
            tfood: 0,
            powers: 0,
            class: 0,
            aplus: 0,
            dplus: 0,
            spellpts: 0,
            tsctrs: 0,
            tships: 0,
            inflation: 0,
            charity: 0,
            arm: Vec::new(),
            nvy: Vec::new(),
            dstatus: Vec::new(),
            tax_rate: 0,
            prestige: 0,
            popularity: 0,
            power: 0,
            communications: 0,
            wealth: 0,
            eatrate: 0,
            spoilrate: 0,
            knowledge: 0,
            farm_ability: 0,
            mine_ability: 0,
            poverty: 0,
            terror: 0,
            reputation: 0,
        }
    }
}

} // verus!
