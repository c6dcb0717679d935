//! Terrain height category of a map tile, with its bidirectional character,
//! display-name and ordinal encodings.

use vstd::prelude::*;

verus! {

/// Terrain height category of a map tile.
///
/// Every character decodes to some variant: unrecognized input falls back to
/// `UNKNOWN` instead of failing, so malformed stored data degrades gracefully.
#[allow(non_camel_case_types)]
#[derive(Clone, Copy, Debug, PartialEq, Eq, Structural)]
pub enum Elevation {
    WATER,
    PEAK,
    MOUNTAIN,
    HILL,
    CLEAR,
    UNKNOWN,
}

/// The canonical display character of each variant; `UNKNOWN` encodes to the
/// reserved fallback `'?'`, which no other variant uses.
pub open spec fn elevation_code(e: Elevation) -> char {
    match e {
        Elevation::WATER => '~',
        Elevation::PEAK => '#',
        Elevation::MOUNTAIN => '^',
        Elevation::HILL => '%',
        Elevation::CLEAR => '-',
        Elevation::UNKNOWN => '?',
    }
}

/// Whether a character is the canonical encoding of some variant other than
/// `UNKNOWN`.
pub open spec fn is_elevation_code(c: char) -> bool {
    c == '~' || c == '#' || c == '^' || c == '%' || c == '-'
}

/// The variant a character decodes to; every character not in the canonical
/// set decodes to `UNKNOWN`.
pub open spec fn elevation_of_code(c: char) -> Elevation {
    if c == '~' {
        Elevation::WATER
    } else if c == '#' {
        Elevation::PEAK
    } else if c == '^' {
        Elevation::MOUNTAIN
    } else if c == '%' {
        Elevation::HILL
    } else if c == '-' {
        Elevation::CLEAR
    } else {
        Elevation::UNKNOWN
    }
}

/// The canonical uppercase display name of each variant.
pub open spec fn elevation_label(e: Elevation) -> Seq<char> {
    match e {
        Elevation::WATER => "WATER"@,
        Elevation::PEAK => "PEAK"@,
        Elevation::MOUNTAIN => "MOUNTAIN"@,
        Elevation::HILL => "HILL"@,
        Elevation::CLEAR => "CLEAR"@,
        Elevation::UNKNOWN => "UNKNOWN"@,
    }
}

/// The fixed ordinal of each variant, used for compact numeric storage;
/// declaration order, starting at 0.
pub open spec fn elevation_ordinal(e: Elevation) -> int {
    match e {
        Elevation::WATER => 0,
        Elevation::PEAK => 1,
        Elevation::MOUNTAIN => 2,
        Elevation::HILL => 3,
        Elevation::CLEAR => 4,
        Elevation::UNKNOWN => 5,
    }
}

impl Elevation {
    /// Encodes this variant as its canonical display character.
    pub fn to_char(&self) -> (c: char)
        ensures
            c == elevation_code(*self),
    {
        match self {
            Elevation::WATER => '~',
            Elevation::PEAK => '#',
            Elevation::MOUNTAIN => '^',
            Elevation::HILL => '%',
            Elevation::CLEAR => '-',
            Elevation::UNKNOWN => '?',
        }
    }

    /// Renders this variant as its canonical uppercase display name.
    pub fn to_string(&self) -> (s: String)
        ensures
            s@ == elevation_label(*self),
    {
        match self {
            Elevation::WATER => String::from_str("WATER"),
            Elevation::PEAK => String::from_str("PEAK"),
            Elevation::MOUNTAIN => String::from_str("MOUNTAIN"),
            Elevation::HILL => String::from_str("HILL"),
            Elevation::CLEAR => String::from_str("CLEAR"),
            Elevation::UNKNOWN => String::from_str("UNKNOWN"),
        }
    }

    /// The ordinal of this variant.
    pub fn ordinal(&self) -> (n: i32)
        ensures
            n == elevation_ordinal(*self),
    {
        match self {
            Elevation::WATER => 0,
            Elevation::PEAK => 1,
            Elevation::MOUNTAIN => 2,
            Elevation::HILL => 3,
            Elevation::CLEAR => 4,
            Elevation::UNKNOWN => 5,
        }
    }
}

impl From<char> for Elevation {
    /// Decodes a display character; an unrecognized character yields
    /// `UNKNOWN`, never a failure.
    fn from(c: char) -> (e: Elevation) {
        match c {
            '~' => Elevation::WATER,
            '#' => Elevation::PEAK,
            '^' => Elevation::MOUNTAIN,
            '%' => Elevation::HILL,
            '-' => Elevation::CLEAR,
            _ => Elevation::UNKNOWN,
        }
    }
}

impl vstd::std_specs::convert::FromSpecImpl<char> for Elevation {
    open spec fn obeys_from_spec() -> bool {
        true
    }

    open spec fn from_spec(c: char) -> Elevation {
        elevation_of_code(c)
    }
}

impl From<Elevation> for char {
    /// Encodes a variant as its canonical display character.
    fn from(e: Elevation) -> (c: char) {
        e.to_char()
    }
}

impl vstd::std_specs::convert::FromSpecImpl<Elevation> for char {
    open spec fn obeys_from_spec() -> bool {
        true
    }

    open spec fn from_spec(e: Elevation) -> char {
        elevation_code(e)
    }
}

impl From<Elevation> for i32 {
    /// The ordinal of a variant, for compact numeric storage.
    fn from(e: Elevation) -> (n: i32) {
        e.ordinal()
    }
}

impl vstd::std_specs::convert::FromSpecImpl<Elevation> for i32 {
    open spec fn obeys_from_spec() -> bool {
        true
    }

    open spec fn from_spec(e: Elevation) -> i32 {
        elevation_ordinal(e) as i32
    }
}

/// Law: every character that canonically encodes a variant other than
/// `UNKNOWN` survives a decode–encode round trip.
pub proof fn lemma_elevation_code_round_trip(c: char)
    requires
        is_elevation_code(c),
    ensures
        elevation_code(elevation_of_code(c)) == c,
{
}

/// Law: decoding is total; every character outside the canonical set decodes
/// to `UNKNOWN`, never to a failure.
pub proof fn lemma_elevation_decode_total(c: char)
    requires
        !is_elevation_code(c),
    ensures
        elevation_of_code(c) == Elevation::UNKNOWN,
{
}

/// Law: every variant other than `UNKNOWN` survives an encode–decode round
/// trip.
pub proof fn lemma_elevation_variant_round_trip(e: Elevation)
    requires
        e != Elevation::UNKNOWN,
    ensures
        elevation_of_code(elevation_code(e)) == e,
{
}

/// Law: distinct variants carry distinct ordinals, so the ordinal alone
/// identifies a variant in compact storage.
pub proof fn lemma_elevation_ordinal_distinct(a: Elevation, b: Elevation)
    requires
        a != b,
    ensures
        elevation_ordinal(a) != elevation_ordinal(b),
{
}

} // verus!
