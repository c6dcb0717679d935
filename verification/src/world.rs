//! The top-level container: global counters and the owned, insertion-ordered
//! collection of nations.

use crate::nation::Nation;
use vstd::prelude::*;

verus! {

/// The world: map dimensions, global counters, and the owned collection of
/// every nation in play.
///
/// The world exclusively owns each nation in its collection; removing a
/// nation from the collection destroys it. Insertion order is preserved and
/// observable — removal is positional.
#[derive(Debug)]
pub struct World {
    /// Width of the world map.
    pub mapx: i16,
    /// Height of the world map.
    pub mapy: i16,
    /// Count of non-player-controlled nations.
    pub othrntns: i16,
    /// Current game turn.
    pub turn: i16,
    /// Number of mercenaries available.
    pub m_mil: i32,
    /// Mercenary attack bonus.
    pub m_aplus: i16,
    /// Mercenary defense bonus.
    pub m_dplus: i16,
    /// Jewels in the world.
    pub w_jewels: i32,
    /// Gold talons in the world.
    pub w_gold: i32,
    /// Food in the world.
    pub w_food: i32,
    /// Metal in the world.
    pub w_metal: i32,
    /// World civilian population.
    pub w_civ: i32,
    /// World military population.
    pub w_mil: i32,
    /// Owned sectors in the world.
    pub w_sctrs: i32,
    /// World score total.
    pub score: i32,
    /// Overall world alignment.
    pub karma: i16,
    /// The owned, insertion-ordered collection of nations.
    pub ntn: Vec<Nation>,
}

/// Whether two worlds agree on every field except the nation collection.
pub open spec fn world_counters_eq(a: World, b: World) -> bool {
    &&& a.mapx == b.mapx
    &&& a.mapy == b.mapy
    &&& a.othrntns == b.othrntns
    &&& a.turn == b.turn
    &&& a.m_mil == b.m_mil
    &&& a.m_aplus == b.m_aplus
    &&& a.m_dplus == b.m_dplus
    &&& a.w_jewels == b.w_jewels
    &&& a.w_gold == b.w_gold
    &&& a.w_food == b.w_food
    &&& a.w_metal == b.w_metal
    &&& a.w_civ == b.w_civ
    &&& a.w_mil == b.w_mil
    &&& a.w_sctrs == b.w_sctrs
    &&& a.score == b.score
    &&& a.karma == b.karma
}

/// Whether every global counter of a world is zero.
pub open spec fn world_zeroed(w: World) -> bool {
    &&& w.mapx == 0
    &&& w.mapy == 0
    &&& w.othrntns == 0
    &&& w.turn == 0
    &&& w.m_mil == 0
    &&& w.m_aplus == 0
    &&& w.m_dplus == 0
    &&& w.w_jewels == 0
    &&& w.w_gold == 0
    &&& w.w_food == 0
    &&& w.w_metal == 0
    &&& w.w_civ == 0
    &&& w.w_mil == 0
    &&& w.w_sctrs == 0
    &&& w.score == 0
    &&& w.karma == 0
}

impl Default for World {
    /// An entirely zero-valued world with no nations.
    fn default() -> (w: World)
        ensures
            world_zeroed(w),
            w.ntn@.len() == 0,
    {
        World {
            mapx: 0,
            mapy: 0,
            othrntns: 0,
            turn: 0,
            m_mil: 0,
            m_aplus: 0,
            m_dplus: 0,
            w_jewels: 0,
            w_gold: 0,
            w_food: 0,
            w_metal: 0,
            w_civ: 0,
            w_mil: 0,
            w_sctrs: 0,
            score: 0,
            karma: 0,
            ntn: Vec::new(),
        }
    }
}

impl World {
    /// Appends a nation at the end of the owned collection; every earlier
    /// entry keeps its position, and no global counter changes.
    pub fn add_nation(&mut self, n: Nation)
        ensures
            final(self).ntn@ == old(self).ntn@.push(n),
            world_counters_eq(*final(self), *old(self)),
    {
        self.ntn.push(n);
    }

    /// Removes and returns the nation at the given position. Exactly that
    /// one entry leaves the collection: entries before it keep their
    /// positions, entries after it shift down by one — their positions
    /// change but not their identifiers — and no global counter changes.
    pub fn remove_nation(&mut self, i: usize) -> (n: Nation)
        requires
            i < old(self).ntn@.len(),
        ensures
            n == old(self).ntn@[i as int],
            final(self).ntn@ == old(self).ntn@.remove(i as int),
            world_counters_eq(*final(self), *old(self)),
    {
        self.ntn.remove(i)
    }

    /// How many nations the world currently owns.
    pub fn nation_count(&self) -> (k: usize)
        ensures
            k == self.ntn@.len(),
    {
        self.ntn.len()
    }
}

} // verus!
