use conquer::designation::Designation;
use conquer::elevation::Elevation;
use conquer::ids::IdAllocator;
use conquer::nation::Nation;
use conquer::race::Race;
use conquer::sector::Sector;
use conquer::units::Army;
use conquer::units::Navy;
use conquer::vegetation::Vegetation;
use conquer::world::World;

#[test]
fn army_default_zero() {
    let a: Army = Default::default();
    assert_eq!(a.unittyp, 0);
    assert_eq!(a.xloc, 0);
    assert_eq!(a.yloc, 0);
    assert_eq!(a.smove, 0);
    assert_eq!(a.sold, 0);
    assert_eq!(a.stat, 0);
}

#[test]
fn navy_default_zero() {
    let n: Navy = Default::default();
    assert_eq!(n.warships, 0);
    assert_eq!(n.merchant, 0);
    assert_eq!(n.galleys, 0);
    assert_eq!(n.xloc, 0);
    assert_eq!(n.yloc, 0);
    assert_eq!(n.smove, 0);
    assert_eq!(n.crew, 0);
    assert_eq!(n.people, 0);
    assert_eq!(n.commodity, 0);
    assert_eq!(n.armynum, 0);
}

#[test]
fn sector_default_baseline() {
    let s: Sector = Default::default();
    assert_eq!(s.altitude, Elevation::WATER);
    assert_eq!(s.vegetation, Vegetation::NONE);
    assert_eq!(s.designation, Designation::NONE);
    assert_eq!(s.owner, 0);
    assert_eq!(s.people, 0);
    assert_eq!(s.i_people, 0);
    assert_eq!(s.jewels, 0);
    assert_eq!(s.fortress, 0);
    assert_eq!(s.metal, 0);
    assert_eq!(s.tradegood, 0);
    assert_eq!(s.region, 0);
    assert_eq!(s.foodstore, 0);
    assert_eq!(s.jewelstore, 0);
    assert_eq!(s.metalstore, 0);
}

#[test]
fn world_default_zero() {
    let w: World = Default::default();
    assert_eq!(w.mapx, 0);
    assert_eq!(w.mapy, 0);
    assert_eq!(w.othrntns, 0);
    assert_eq!(w.turn, 0);
    assert_eq!(w.m_mil, 0);
    assert_eq!(w.m_aplus, 0);
    assert_eq!(w.m_dplus, 0);
    assert_eq!(w.w_jewels, 0);
    assert_eq!(w.w_gold, 0);
    assert_eq!(w.w_food, 0);
    assert_eq!(w.w_metal, 0);
    assert_eq!(w.w_civ, 0);
    assert_eq!(w.w_mil, 0);
    assert_eq!(w.w_sctrs, 0);
    assert_eq!(w.score, 0);
    assert_eq!(w.karma, 0);
    assert_eq!(w.nation_count(), 0);
}

#[test]
fn id_allocation_sequential() {
    let mut ids = IdAllocator::new();
    let mut previous: Option<i32> = None;
    for expected in 0..5 {
        let id = ids.allocate();
        assert_eq!(id, expected);
        if let Some(p) = previous {
            assert_eq!(id, p + 1);
        }
        previous = Some(id);
    }
}

#[test]
fn unique_id_distinct() {
    let mut ids = IdAllocator::new();
    let a = Nation::unique_id(&mut ids);
    let b = Nation::unique_id(&mut ids);
    assert_ne!(a, b);
    assert_eq!(a, 0);
    assert_eq!(b, 1);
}

#[test]
fn nation_new_fresh() {
    let mut ids = IdAllocator::new();
    let n = Nation::new(&mut ids);
    assert_eq!(n.id, 0);
    assert_eq!(n.name, "Bob");
    assert_eq!(n.passwd, "");
    assert_eq!(n.leader, "");
    assert_eq!(n.race, Race::UNKNOWN);
    assert_eq!(n.location, 0);
    assert_eq!(n.mark, ' ');
    assert_eq!(n.capx, 0);
    assert_eq!(n.capy, 0);
    assert_eq!(n.active, 0);
    assert_eq!(n.maxmove, 0);
    assert_eq!(n.repro, 0);
    assert_eq!(n.score, 0);
    assert_eq!(n.tgold, 0);
    assert_eq!(n.jewels, 0);
    assert_eq!(n.tmil, 0);
    assert_eq!(n.tciv, 0);
    assert_eq!(n.metals, 0);
    assert_eq!(n.tfood, 0);
    assert_eq!(n.powers, 0);
    assert_eq!(n.class, 0);
    assert_eq!(n.aplus, 0);
    assert_eq!(n.dplus, 0);
    assert_eq!(n.spellpts, 0);
    assert_eq!(n.tsctrs, 0);
    assert_eq!(n.tships, 0);
    assert_eq!(n.inflation, 0);
    assert_eq!(n.charity, 0);
    assert!(n.arm.is_empty());
    assert!(n.nvy.is_empty());
    assert!(n.dstatus.is_empty());
    assert_eq!(n.tax_rate, 0);
    assert_eq!(n.prestige, 0);
    assert_eq!(n.popularity, 0);
    assert_eq!(n.power, 0);
    assert_eq!(n.communications, 0);
    assert_eq!(n.wealth, 0);
    assert_eq!(n.eatrate, 0);
    assert_eq!(n.spoilrate, 0);
    assert_eq!(n.knowledge, 0);
    assert_eq!(n.farm_ability, 0);
    assert_eq!(n.mine_ability, 0);
    assert_eq!(n.poverty, 0);
    assert_eq!(n.terror, 0);
    assert_eq!(n.reputation, 0);

    let m = Nation::new(&mut ids);
    assert_ne!(n.id, m.id);
    assert_eq!(m.id, 1);
}

#[test]
fn world_add_remove_nations() {
    let mut ids = IdAllocator::new();
    let mut w: World = Default::default();

    let mut n = Nation::new(&mut ids);
    n.name = String::from("Ted");
    w.add_nation(n);

    let mut n = Nation::new(&mut ids);
    n.name = String::from("George");
    w.add_nation(n);

    let mut n = Nation::new(&mut ids);
    n.name = String::from("Fred");
    w.add_nation(n);

    assert_eq!(w.nation_count(), 3);

    let gone = w.remove_nation(1);
    assert_eq!(gone.name, "George");
    assert_eq!(gone.id, 1);

    assert_eq!(w.nation_count(), 2);
    assert_eq!(w.ntn[0].name, "Ted");
    assert_eq!(w.ntn[1].name, "Fred");
    assert_eq!(w.ntn[0].id, 0);
    assert_eq!(w.ntn[1].id, 2);
    assert_ne!(w.ntn[0].id, w.ntn[1].id);

    // A nation added afterwards still gets a never-used identifier.
    let late = Nation::new(&mut ids);
    assert_eq!(late.id, 3);
}
