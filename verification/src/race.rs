//! Playable race of a nation, with its bidirectional character, display-name
//! and ordinal encodings.

use vstd::prelude::*;

verus! {

/// Playable race of a nation.
///
/// Every character decodes to some variant: unrecognized input falls back to
/// `UNKNOWN` instead of failing, so malformed stored data degrades gracefully.
#[allow(non_camel_case_types)]
#[derive(Clone, Copy, Debug, PartialEq, Eq, Structural)]
pub enum Race {
    GOD,
    ORC,
    ELF,
    DWARF,
    LIZARD,
    HUMAN,
    PIRATE,
    SAVAGE,
    NOMAD,
    UNKNOWN,
}

/// The canonical display character of each variant; `UNKNOWN` encodes to the
/// reserved fallback `'?'`, which no other variant uses.
pub open spec fn race_code(r: Race) -> char {
    match r {
        Race::GOD => '-',
        Race::ORC => 'O',
        Race::ELF => 'E',
        Race::DWARF => 'D',
        Race::LIZARD => 'L',
        Race::HUMAN => 'H',
        Race::PIRATE => 'P',
        Race::SAVAGE => 'S',
        Race::NOMAD => 'N',
        Race::UNKNOWN => '?',
    }
}

/// Whether a character is the canonical encoding of some variant other than
/// `UNKNOWN`.
pub open spec fn is_race_code(c: char) -> bool {
    ||| c == '-'
    ||| c == 'O'
    ||| c == 'E'
    ||| c == 'D'
    ||| c == 'L'
    ||| c == 'H'
    ||| c == 'P'
    ||| c == 'S'
    ||| c == 'N'
}

/// The variant a character decodes to; every character not in the canonical
/// set decodes to `UNKNOWN`.
pub open spec fn race_of_code(c: char) -> Race {
    if c == '-' {
        Race::GOD
    } else if c == 'O' {
        Race::ORC
    } else if c == 'E' {
        Race::ELF
    } else if c == 'D' {
        Race::DWARF
    } else if c == 'L' {
        Race::LIZARD
    } else if c == 'H' {
        Race::HUMAN
    } else if c == 'P' {
        Race::PIRATE
    } else if c == 'S' {
        Race::SAVAGE
    } else if c == 'N' {
        Race::NOMAD
    } else {
        Race::UNKNOWN
    }
}

/// The canonical uppercase display name of each variant.
pub open spec fn race_label(r: Race) -> Seq<char> {
    match r {
        Race::GOD => "GOD"@,
        Race::ORC => "ORC"@,
        Race::ELF => "ELF"@,
        Race::DWARF => "DWARF"@,
        Race::LIZARD => "LIZARD"@,
        Race::HUMAN => "HUMAN"@,
        Race::PIRATE => "PIRATE"@,
        Race::SAVAGE => "SAVAGE"@,
        Race::NOMAD => "NOMAD"@,
        Race::UNKNOWN => "UNKNOWN"@,
    }
}

/// The fixed ordinal of each variant, used for compact numeric storage;
/// declaration order, starting at 0.
pub open spec fn race_ordinal(r: Race) -> int {
    match r {
        Race::GOD => 0,
        Race::ORC => 1,
        Race::ELF => 2,
        Race::DWARF => 3,
        Race::LIZARD => 4,
        Race::HUMAN => 5,
        Race::PIRATE => 6,
        Race::SAVAGE => 7,
        Race::NOMAD => 8,
        Race::UNKNOWN => 9,
    }
}

impl Race {
    /// Encodes this variant as its canonical display character.
    pub fn to_char(&self) -> (c: char)
        ensures
            c == race_code(*self),
    {
        match self {
            Race::GOD => '-',
            Race::ORC => 'O',
            Race::ELF => 'E',
            Race::DWARF => 'D',
            Race::LIZARD => 'L',
            Race::HUMAN => 'H',
            Race::PIRATE => 'P',
            Race::SAVAGE => 'S',
            Race::NOMAD => 'N',
            Race::UNKNOWN => '?',
        }
    }

    /// Renders this variant as its canonical uppercase display name.
    pub fn to_string(&self) -> (s: String)
        ensures
            s@ == race_label(*self),
    {
        match self {
            Race::GOD => String::from_str("GOD"),
            Race::ORC => String::from_str("ORC"),
            Race::ELF => String::from_str("ELF"),
            Race::DWARF => String::from_str("DWARF"),
            Race::LIZARD => String::from_str("LIZARD"),
            Race::HUMAN => String::from_str("HUMAN"),
            Race::PIRATE => String::from_str("PIRATE"),
            Race::SAVAGE => String::from_str("SAVAGE"),
            Race::NOMAD => String::from_str("NOMAD"),
            Race::UNKNOWN => String::from_str("UNKNOWN"),
        }
    }

    /// The ordinal of this variant.
    pub fn ordinal(&self) -> (n: i32)
        ensures
            n == race_ordinal(*self),
    {
        match self {
            Race::GOD => 0,
            Race::ORC => 1,
            Race::ELF => 2,
            Race::DWARF => 3,
            Race::LIZARD => 4,
            Race::HUMAN => 5,
            Race::PIRATE => 6,
            Race::SAVAGE => 7,
            Race::NOMAD => 8,
            Race::UNKNOWN => 9,
        }
    }
}

impl From<char> for Race {
    /// Decodes a display character; an unrecognized character yields
    /// `UNKNOWN`, never a failure.
    fn from(c: char) -> (r: Race) {
        match c {
            '-' => Race::GOD,
            'O' => Race::ORC,
            'E' => Race::ELF,
            'D' => Race::DWARF,
            'L' => Race::LIZARD,
            'H' => Race::HUMAN,
            'P' => Race::PIRATE,
            'S' => Race::SAVAGE,
            'N' => Race::NOMAD,
            _ => Race::UNKNOWN,
        }
    }
}

impl vstd::std_specs::convert::FromSpecImpl<char> for Race {
    open spec fn obeys_from_spec() -> bool {
        true
    }

    open spec fn from_spec(c: char) -> Race {
        race_of_code(c)
    }
}

impl From<Race> for char {
    /// Encodes a variant as its canonical display character.
    fn from(r: Race) -> (c: char) {
        r.to_char()
    }
}

impl vstd::std_specs::convert::FromSpecImpl<Race> for char {
    open spec fn obeys_from_spec() -> bool {
        true
    }

    open spec fn from_spec(r: Race) -> char {
        race_code(r)
    }
}

impl From<Race> for i32 {
    /// The ordinal of a variant, for compact numeric storage.
    fn from(r: Race) -> (n: i32) {
        r.ordinal()
    }
}

impl vstd::std_specs::convert::FromSpecImpl<Race> for i32 {
    open spec fn obeys_from_spec() -> bool {
        true
    }

    open spec fn from_spec(r: Race) -> i32 {
        race_ordinal(r) as i32
    }
}

/// Law: every character that canonically encodes a variant other than
/// `UNKNOWN` survives a decode–encode round trip.
pub proof fn lemma_race_code_round_trip(c: char)
    requires
        is_race_code(c),
    ensures
        race_code(race_of_code(c)) == c,
{
}

/// Law: decoding is total; every character outside the canonical set decodes
/// to `UNKNOWN`, never to a failure.
pub proof fn lemma_race_decode_total(c: char)
    requires
        !is_race_code(c),
    ensures
        race_of_code(c) == Race::UNKNOWN,
{
}

/// Law: every variant other than `UNKNOWN` survives an encode–decode round
/// trip.
pub proof fn lemma_race_variant_round_trip(r: Race)
    requires
        r != Race::UNKNOWN,
    ensures
        race_of_code(race_code(r)) == r,
{
}

/// Law: distinct variants carry distinct ordinals, so the ordinal alone
/// identifies a variant in compact storage.
pub proof fn lemma_race_ordinal_distinct(a: Race, b: Race)
    requires
        a != b,
    ensures
        race_ordinal(a) != race_ordinal(b),
{
}

} // verus!
