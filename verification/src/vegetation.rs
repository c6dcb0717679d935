//! Terrain cover category of a map tile, with its bidirectional character,
//! display-name and ordinal encodings.

use vstd::prelude::*;

verus! {

/// Terrain cover category of a map tile.
///
/// Every character decodes to some variant: unrecognized input falls back to
/// `UNKNOWN` instead of failing, so malformed stored data degrades gracefully.
#[allow(non_camel_case_types)]
#[derive(Clone, Copy, Debug, PartialEq, Eq, Structural)]
pub enum Vegetation {
    VOLCANO,
    DESERT,
    TUNDRA,
    BARREN,
    LT_VEG,
    GOOD,
    WOOD,
    FOREST,
    JUNGLE,
    SWAMP,
    ICE,
    NONE,
    UNKNOWN,
}

/// The canonical display character of each variant; `UNKNOWN` encodes to the
/// reserved fallback `'0'`, which no other variant uses.
pub open spec fn vegetation_code(v: Vegetation) -> char {
    match v {
        Vegetation::VOLCANO => 'v',
        Vegetation::DESERT => 'd',
        Vegetation::TUNDRA => 't',
        Vegetation::BARREN => 'b',
        Vegetation::LT_VEG => 'l',
        Vegetation::GOOD => 'g',
        Vegetation::WOOD => 'w',
        Vegetation::FOREST => 'f',
        Vegetation::JUNGLE => 'j',
        Vegetation::SWAMP => 's',
        Vegetation::ICE => 'i',
        Vegetation::NONE => '~',
        Vegetation::UNKNOWN => '0',
    }
}

/// Whether a character is the canonical encoding of some variant other than
/// `UNKNOWN`.
pub open spec fn is_vegetation_code(c: char) -> bool {
    ||| c == 'v'
    ||| c == 'd'
    ||| c == 't'
    ||| c == 'b'
    ||| c == 'l'
    ||| c == 'g'
    ||| c == 'w'
    ||| c == 'f'
    ||| c == 'j'
    ||| c == 's'
    ||| c == 'i'
    ||| c == '~'
}

/// The variant a character decodes to; every character not in the canonical
/// set decodes to `UNKNOWN`.
pub open spec fn vegetation_of_code(c: char) -> Vegetation {
    if c == 'v' {
        Vegetation::VOLCANO
    } else if c == 'd' {
        Vegetation::DESERT
    } else if c == 't' {
        Vegetation::TUNDRA
    } else if c == 'b' {
        Vegetation::BARREN
    } else if c == 'l' {
        Vegetation::LT_VEG
    } else if c == 'g' {
        Vegetation::GOOD
    } else if c == 'w' {
        Vegetation::WOOD
    } else if c == 'f' {
        Vegetation::FOREST
    } else if c == 'j' {
        Vegetation::JUNGLE
    } else if c == 's' {
        Vegetation::SWAMP
    } else if c == 'i' {
        Vegetation::ICE
    } else if c == '~' {
        Vegetation::NONE
    } else {
        Vegetation::UNKNOWN
    }
}

/// The canonical display name of each variant. `LT_VEG` deliberately renders
/// as the two words `"LT VEG"` with a space, not an underscore.
pub open spec fn vegetation_label(v: Vegetation) -> Seq<char> {
    match v {
        Vegetation::VOLCANO => "VOLCANO"@,
        Vegetation::DESERT => "DESERT"@,
        Vegetation::TUNDRA => "TUNDRA"@,
        Vegetation::BARREN => "BARREN"@,
        Vegetation::LT_VEG => "LT VEG"@,
        Vegetation::GOOD => "GOOD"@,
        Vegetation::WOOD => "WOOD"@,
        Vegetation::FOREST => "FOREST"@,
        Vegetation::JUNGLE => "JUNGLE"@,
        Vegetation::SWAMP => "SWAMP"@,
        Vegetation::ICE => "ICE"@,
        Vegetation::NONE => "NONE"@,
        Vegetation::UNKNOWN => "UNKNOWN"@,
    }
}

/// The fixed ordinal of each variant, used for compact numeric storage;
/// declaration order, starting at 0.
pub open spec fn vegetation_ordinal(v: Vegetation) -> int {
    match v {
        Vegetation::VOLCANO => 0,
        Vegetation::DESERT => 1,
        Vegetation::TUNDRA => 2,
        Vegetation::BARREN => 3,
        Vegetation::LT_VEG => 4,
        Vegetation::GOOD => 5,
        Vegetation::WOOD => 6,
        Vegetation::FOREST => 7,
        Vegetation::JUNGLE => 8,
        Vegetation::SWAMP => 9,
        Vegetation::ICE => 10,
        Vegetation::NONE => 11,
        Vegetation::UNKNOWN => 12,
    }
}

impl Vegetation {
    /// Encodes this variant as its canonical display character.
    pub fn to_char(&self) -> (c: char)
        ensures
            c == vegetation_code(*self),
    {
        match self {
            Vegetation::VOLCANO => 'v',
            Vegetation::DESERT => 'd',
            Vegetation::TUNDRA => 't',
            Vegetation::BARREN => 'b',
            Vegetation::LT_VEG => 'l',
            Vegetation::GOOD => 'g',
            Vegetation::WOOD => 'w',
            Vegetation::FOREST => 'f',
            Vegetation::JUNGLE => 'j',
            Vegetation::SWAMP => 's',
            Vegetation::ICE => 'i',
            Vegetation::NONE => '~',
            Vegetation::UNKNOWN => '0',
        }
    }

    /// Renders this variant as its canonical display name.
    pub fn to_string(&self) -> (s: String)
        ensures
            s@ == vegetation_label(*self),
    {
        match self {
            Vegetation::VOLCANO => String::from_str("VOLCANO"),
            Vegetation::DESERT => String::from_str("DESERT"),
            Vegetation::TUNDRA => String::from_str("TUNDRA"),
            Vegetation::BARREN => String::from_str("BARREN"),
            Vegetation::LT_VEG => String::from_str("LT VEG"),
            Vegetation::GOOD => String::from_str("GOOD"),
            Vegetation::WOOD => String::from_str("WOOD"),
            Vegetation::FOREST => String::from_str("FOREST"),
            Vegetation::JUNGLE => String::from_str("JUNGLE"),
            Vegetation::SWAMP => String::from_str("SWAMP"),
            Vegetation::ICE => String::from_str("ICE"),
            Vegetation::NONE => String::from_str("NONE"),
            Vegetation::UNKNOWN => String::from_str("UNKNOWN"),
        }
    }

    /// The ordinal of this variant.
    pub fn ordinal(&self) -> (n: i32)
        ensures
            n == vegetation_ordinal(*self),
    {
        match self {
            Vegetation::VOLCANO => 0,
            Vegetation::DESERT => 1,
            Vegetation::TUNDRA => 2,
            Vegetation::BARREN => 3,
            Vegetation::LT_VEG => 4,
            Vegetation::GOOD => 5,
            Vegetation::WOOD => 6,
            Vegetation::FOREST => 7,
            Vegetation::JUNGLE => 8,
            Vegetation::SWAMP => 9,
            Vegetation::ICE => 10,
            Vegetation::NONE => 11,
            Vegetation::UNKNOWN => 12,
        }
    }
}

impl From<char> for Vegetation {
    /// Decodes a display character; an unrecognized character yields
    /// `UNKNOWN`, never a failure.
    fn from(c: char) -> (v: Vegetation) {
        match c {
            'v' => Vegetation::VOLCANO,
            'd' => Vegetation::DESERT,
            't' => Vegetation::TUNDRA,
            'b' => Vegetation::BARREN,
            'l' => Vegetation::LT_VEG,
            'g' => Vegetation::GOOD,
            'w' => Vegetation::WOOD,
            'f' => Vegetation::FOREST,
            'j' => Vegetation::JUNGLE,
            's' => Vegetation::SWAMP,
            'i' => Vegetation::ICE,
            '~' => Vegetation::NONE,
            _ => Vegetation::UNKNOWN,
        }
    }
}

impl vstd::std_specs::convert::FromSpecImpl<char> for Vegetation {
    open spec fn obeys_from_spec() -> bool {
        true
    }

    open spec fn from_spec(c: char) -> Vegetation {
        vegetation_of_code(c)
    }
}

impl From<Vegetation> for char {
    /// Encodes a variant as its canonical display character.
    fn from(v: Vegetation) -> (c: char) {
        v.to_char()
    }
}

impl vstd::std_specs::convert::FromSpecImpl<Vegetation> for char {
    open spec fn obeys_from_spec() -> bool {
        true
    }

    open spec fn from_spec(v: Vegetation) -> char {
        vegetation_code(v)
    }
}

impl From<Vegetation> for i32 {
    /// The ordinal of a variant, for compact numeric storage.
    fn from(v: Vegetation) -> (n: i32) {
        v.ordinal()
    }
}

impl vstd::std_specs::convert::FromSpecImpl<Vegetation> for i32 {
    open spec fn obeys_from_spec() -> bool {
        true
    }

    open spec fn from_spec(v: Vegetation) -> i32 {
        vegetation_ordinal(v) as i32
    }
}

/// Law: every character that canonically encodes a variant other than
/// `UNKNOWN` survives a decode–encode round trip.
pub proof fn lemma_vegetation_code_round_trip(c: char)
    requires
        is_vegetation_code(c),
    ensures
        vegetation_code(vegetation_of_code(c)) == c,
{
}

/// Law: decoding is total; every character outside the canonical set decodes
/// to `UNKNOWN`, never to a failure.
pub proof fn lemma_vegetation_decode_total(c: char)
    requires
        !is_vegetation_code(c),
    ensures
        vegetation_of_code(c) == Vegetation::UNKNOWN,
{
}

/// Law: every variant other than `UNKNOWN` survives an encode–decode round
/// trip.
pub proof fn lemma_vegetation_variant_round_trip(v: Vegetation)
    requires
        v != Vegetation::UNKNOWN,
    ensures
        vegetation_of_code(vegetation_code(v)) == v,
{
}

/// Law: distinct variants carry distinct ordinals, so the ordinal alone
/// identifies a variant in compact storage.
pub proof fn lemma_vegetation_ordinal_distinct(a: Vegetation, b: Vegetation)
    requires
        a != b,
    ensures
        vegetation_ordinal(a) != vegetation_ordinal(b),
{
}

} // verus!
