use conquer::designation::Designation;
use conquer::elevation::Elevation;
use conquer::race::Race;
use conquer::vegetation::Vegetation;

#[test]
fn elevation_round_trip_canonical() {
    for c in ['~', '#', '^', '%', '-'] {
        assert_eq!(Elevation::from(c).to_char(), c);
    }
}

#[test]
fn elevation_variant_round_trip() {
    let variants = [
        Elevation::WATER,
        Elevation::PEAK,
        Elevation::MOUNTAIN,
        Elevation::HILL,
        Elevation::CLEAR,
    ];
    for v in variants {
        assert_eq!(Elevation::from(v.to_char()), v);
    }
}

#[test]
fn elevation_decode_unrecognized() {
    assert_eq!(Elevation::from('Q'), Elevation::UNKNOWN);
    assert_eq!(Elevation::from('?'), Elevation::UNKNOWN);
    assert_eq!(Elevation::from('0'), Elevation::UNKNOWN);
    assert_eq!(Elevation::UNKNOWN.to_char(), '?');
}

#[test]
fn elevation_ordinals() {
    assert_eq!(Elevation::WATER.ordinal(), 0);
    assert_eq!(Elevation::PEAK.ordinal(), 1);
    assert_eq!(Elevation::MOUNTAIN.ordinal(), 2);
    assert_eq!(Elevation::HILL.ordinal(), 3);
    assert_eq!(Elevation::CLEAR.ordinal(), 4);
    assert_eq!(Elevation::UNKNOWN.ordinal(), 5);
}

#[test]
fn elevation_mountain_conversions() {
    assert_eq!(Elevation::MOUNTAIN.to_char(), '^');
    assert_eq!(Elevation::MOUNTAIN.to_string(), "MOUNTAIN");
    assert_eq!(Elevation::MOUNTAIN.ordinal(), 2);
    assert_eq!(char::from(Elevation::MOUNTAIN), '^');
    assert_eq!(i32::from(Elevation::MOUNTAIN), 2);
    let x: Elevation = '^'.into();
    assert_eq!(x, Elevation::MOUNTAIN);
}

#[test]
fn elevation_labels() {
    assert_eq!(Elevation::WATER.to_string(), "WATER");
    assert_eq!(Elevation::PEAK.to_string(), "PEAK");
    assert_eq!(Elevation::HILL.to_string(), "HILL");
    assert_eq!(Elevation::CLEAR.to_string(), "CLEAR");
    assert_eq!(Elevation::UNKNOWN.to_string(), "UNKNOWN");
}

#[test]
fn vegetation_round_trip_canonical() {
    for c in ['v', 'd', 't', 'b', 'l', 'g', 'w', 'f', 'j', 's', 'i', '~'] {
        assert_eq!(Vegetation::from(c).to_char(), c);
    }
}

#[test]
fn vegetation_variant_round_trip() {
    let variants = [
        Vegetation::VOLCANO,
        Vegetation::DESERT,
        Vegetation::TUNDRA,
        Vegetation::BARREN,
        Vegetation::LT_VEG,
        Vegetation::GOOD,
        Vegetation::WOOD,
        Vegetation::FOREST,
        Vegetation::JUNGLE,
        Vegetation::SWAMP,
        Vegetation::ICE,
        Vegetation::NONE,
    ];
    for v in variants {
        assert_eq!(Vegetation::from(v.to_char()), v);
    }
}

#[test]
fn vegetation_decode_unrecognized() {
    assert_eq!(Vegetation::from('z'), Vegetation::UNKNOWN);
    assert_eq!(Vegetation::from('0'), Vegetation::UNKNOWN);
    assert_eq!(Vegetation::UNKNOWN.to_char(), '0');
}

#[test]
fn vegetation_labels() {
    assert_eq!(Vegetation::VOLCANO.to_string(), "VOLCANO");
    assert_eq!(Vegetation::LT_VEG.to_string(), "LT VEG");
    assert_eq!(Vegetation::NONE.to_string(), "NONE");
    assert_eq!(Vegetation::UNKNOWN.to_string(), "UNKNOWN");
}

#[test]
fn vegetation_ordinals() {
    let variants = [
        Vegetation::VOLCANO,
        Vegetation::DESERT,
        Vegetation::TUNDRA,
        Vegetation::BARREN,
        Vegetation::LT_VEG,
        Vegetation::GOOD,
        Vegetation::WOOD,
        Vegetation::FOREST,
        Vegetation::JUNGLE,
        Vegetation::SWAMP,
        Vegetation::ICE,
        Vegetation::NONE,
        Vegetation::UNKNOWN,
    ];
    for (i, v) in variants.into_iter().enumerate() {
        assert_eq!(v.ordinal(), i as i32);
    }
}

#[test]
fn designation_round_trip_canonical() {
    for c in [
        't', 'c', 'm', 'f', 'x', '$', '!', '&', 's', 'C', '?', 'l', 'b', '+', '*', 'g', '=', 'u',
        '-', 'P',
    ] {
        assert_eq!(Designation::from(c).to_char(), c);
    }
}

#[test]
fn designation_variant_round_trip() {
    let variants = [
        Designation::TOWN,
        Designation::CITY,
        Designation::MINE,
        Designation::FARM,
        Designation::DEVASTATED,
        Designation::GOLDMINE,
        Designation::FORT,
        Designation::RUIN,
        Designation::STOCKADE,
        Designation::CAPITOL,
        Designation::SPECIAL,
        Designation::LUMBERYARD,
        Designation::BLACKSMITH,
        Designation::ROAD,
        Designation::MILL,
        Designation::GRANARY,
        Designation::CHURCH,
        Designation::UNIVERSITY,
        Designation::NONE,
        Designation::BASECAMP,
    ];
    for v in variants {
        assert_eq!(Designation::from(v.to_char()), v);
    }
}

#[test]
fn designation_decode_unrecognized() {
    assert_eq!(Designation::from('q'), Designation::UNKNOWN);
    assert_eq!(Designation::from('0'), Designation::UNKNOWN);
    assert_eq!(Designation::UNKNOWN.to_char(), '0');
    // '?' is a canonical character here, unlike in the other families.
    assert_eq!(Designation::from('?'), Designation::SPECIAL);
}

#[test]
fn designation_labels_and_ordinals() {
    assert_eq!(Designation::TOWN.to_string(), "TOWN");
    assert_eq!(Designation::TOWN.ordinal(), 0);
    assert_eq!(Designation::GOLDMINE.to_string(), "GOLDMINE");
    assert_eq!(Designation::GOLDMINE.ordinal(), 5);
    assert_eq!(Designation::BASECAMP.to_string(), "BASECAMP");
    assert_eq!(Designation::BASECAMP.ordinal(), 19);
    assert_eq!(Designation::UNKNOWN.to_string(), "UNKNOWN");
    assert_eq!(Designation::UNKNOWN.ordinal(), 20);
    assert_eq!(i32::from(Designation::CAPITOL), 9);
}

#[test]
fn race_round_trip_canonical() {
    for c in ['-', 'O', 'E', 'D', 'L', 'H', 'P', 'S', 'N'] {
        assert_eq!(Race::from(c).to_char(), c);
    }
}

#[test]
fn race_variant_round_trip() {
    let variants = [
        Race::GOD,
        Race::ORC,
        Race::ELF,
        Race::DWARF,
        Race::LIZARD,
        Race::HUMAN,
        Race::PIRATE,
        Race::SAVAGE,
        Race::NOMAD,
    ];
    for v in variants {
        assert_eq!(Race::from(v.to_char()), v);
    }
}

#[test]
fn race_decode_orc_and_unused() {
    assert_eq!(Race::from('O'), Race::ORC);
    assert_eq!(Race::from('Z'), Race::UNKNOWN);
    assert_eq!(Race::UNKNOWN.to_char(), '?');
}

#[test]
fn race_labels_and_ordinals() {
    assert_eq!(Race::GOD.to_string(), "GOD");
    assert_eq!(Race::GOD.ordinal(), 0);
    assert_eq!(Race::ORC.to_string(), "ORC");
    assert_eq!(Race::ORC.ordinal(), 1);
    assert_eq!(Race::NOMAD.to_string(), "NOMAD");
    assert_eq!(Race::NOMAD.ordinal(), 8);
    assert_eq!(Race::UNKNOWN.to_string(), "UNKNOWN");
    assert_eq!(Race::UNKNOWN.ordinal(), 9);
    assert_eq!(char::from(Race::ELF), 'E');
    assert_eq!(i32::from(Race::DWARF), 3);
}
