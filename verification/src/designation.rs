//! Developed-use category of a map tile, with its bidirectional character,
//! display-name and ordinal encodings.

use vstd::prelude::*;

verus! {

/// Developed-use category of a map tile.
///
/// Every character decodes to some variant: unrecognized input falls back to
/// `UNKNOWN` instead of failing, so malformed stored data degrades gracefully.
#[allow(non_camel_case_types)]
#[derive(Clone, Copy, Debug, PartialEq, Eq, Structural)]
pub enum Designation {
    TOWN,
    CITY,
    MINE,
    FARM,
    DEVASTATED,
    GOLDMINE,
    FORT,
    RUIN,
    STOCKADE,
    CAPITOL,
    SPECIAL,
    LUMBERYARD,
    BLACKSMITH,
    ROAD,
    MILL,
    GRANARY,
    CHURCH,
    UNIVERSITY,
    NONE,
    BASECAMP,
    UNKNOWN,
}

/// The canonical display character of each variant; `UNKNOWN` encodes to the
/// reserved fallback `'0'`, which no other variant uses.
pub open spec fn designation_code(d: Designation) -> char {
    match d {
        Designation::TOWN => 't',
        Designation::CITY => 'c',
        Designation::MINE => 'm',
        Designation::FARM => 'f',
        Designation::DEVASTATED => 'x',
        Designation::GOLDMINE => '$',
        Designation::FORT => '!',
        Designation::RUIN => '&',
        Designation::STOCKADE => 's',
        Designation::CAPITOL => 'C',
        Designation::SPECIAL => '?',
        Designation::LUMBERYARD => 'l',
        Designation::BLACKSMITH => 'b',
        Designation::ROAD => '+',
        Designation::MILL => '*',
        Designation::GRANARY => 'g',
        Designation::CHURCH => '=',
        Designation::UNIVERSITY => 'u',
        Designation::NONE => '-',
        Designation::BASECAMP => 'P',
        Designation::UNKNOWN => '0',
    }
}

/// Whether a character is the canonical encoding of some variant other than
/// `UNKNOWN`.
pub open spec fn is_designation_code(c: char) -> bool {
    ||| c == 't'
    ||| c == 'c'
    ||| c == 'm'
    ||| c == 'f'
    ||| c == 'x'
    ||| c == '$'
    ||| c == '!'
    ||| c == '&'
    ||| c == 's'
    ||| c == 'C'
    ||| c == '?'
    ||| c == 'l'
    ||| c == 'b'
    ||| c == '+'
    ||| c == '*'
    ||| c == 'g'
    ||| c == '='
    ||| c == 'u'
    ||| c == '-'
    ||| c == 'P'
}

/// The variant a character decodes to; every character not in the canonical
/// set decodes to `UNKNOWN`.
pub open spec fn designation_of_code(c: char) -> Designation {
    if c == 't' {
        Designation::TOWN
    } else if c == 'c' {
        Designation::CITY
    } else if c == 'm' {
        Designation::MINE
    } else if c == 'f' {
        Designation::FARM
    } else if c == 'x' {
        Designation::DEVASTATED
    } else if c == '$' {
        Designation::GOLDMINE
    } else if c == '!' {
        Designation::FORT
    } else if c == '&' {
        Designation::RUIN
    } else if c == 's' {
        Designation::STOCKADE
    } else if c == 'C' {
        Designation::CAPITOL
    } else if c == '?' {
        Designation::SPECIAL
    } else if c == 'l' {
        Designation::LUMBERYARD
    } else if c == 'b' {
        Designation::BLACKSMITH
    } else if c == '+' {
        Designation::ROAD
    } else if c == '*' {
        Designation::MILL
    } else if c == 'g' {
        Designation::GRANARY
    } else if c == '=' {
        Designation::CHURCH
    } else if c == 'u' {
        Designation::UNIVERSITY
    } else if c == '-' {
        Designation::NONE
    } else if c == 'P' {
        Designation::BASECAMP
    } else {
        Designation::UNKNOWN
    }
}

/// The canonical uppercase display name of each variant.
pub open spec fn designation_label(d: Designation) -> Seq<char> {
    match d {
        Designation::TOWN => "TOWN"@,
        Designation::CITY => "CITY"@,
        Designation::MINE => "MINE"@,
        Designation::FARM => "FARM"@,
        Designation::DEVASTATED => "DEVASTATED"@,
        Designation::GOLDMINE => "GOLDMINE"@,
        Designation::FORT => "FORT"@,
        Designation::RUIN => "RUIN"@,
        Designation::STOCKADE => "STOCKADE"@,
        Designation::CAPITOL => "CAPITOL"@,
        Designation::SPECIAL => "SPECIAL"@,
        Designation::LUMBERYARD => "LUMBERYARD"@,
        Designation::BLACKSMITH => "BLACKSMITH"@,
        Designation::ROAD => "ROAD"@,
        Designation::MILL => "MILL"@,
        Designation::GRANARY => "GRANARY"@,
        Designation::CHURCH => "CHURCH"@,
        Designation::UNIVERSITY => "UNIVERSITY"@,
        Designation::NONE => "NONE"@,
        Designation::BASECAMP => "BASECAMP"@,
        Designation::UNKNOWN => "UNKNOWN"@,
    }
}

/// The fixed ordinal of each variant, used for compact numeric storage;
/// declaration order, starting at 0.
pub open spec fn designation_ordinal(d: Designation) -> int {
    match d {
        Designation::TOWN => 0,
        Designation::CITY => 1,
        Designation::MINE => 2,
        Designation::FARM => 3,
        Designation::DEVASTATED => 4,
        Designation::GOLDMINE => 5,
        Designation::FORT => 6,
        Designation::RUIN => 7,
        Designation::STOCKADE => 8,
        Designation::CAPITOL => 9,
        Designation::SPECIAL => 10,
        Designation::LUMBERYARD => 11,
        Designation::BLACKSMITH => 12,
        Designation::ROAD => 13,
        Designation::MILL => 14,
        Designation::GRANARY => 15,
        Designation::CHURCH => 16,
        Designation::UNIVERSITY => 17,
        Designation::NONE => 18,
        Designation::BASECAMP => 19,
        Designation::UNKNOWN => 20,
    }
}

impl Designation {
    /// Encodes this variant as its canonical display character.
    pub fn to_char(&self) -> (c: char)
        ensures
            c == designation_code(*self),
    {
        match self {
            Designation::TOWN => 't',
            Designation::CITY => 'c',
            Designation::MINE => 'm',
            Designation::FARM => 'f',
            Designation::DEVASTATED => 'x',
            Designation::GOLDMINE => '$',
            Designation::FORT => '!',
            Designation::RUIN => '&',
            Designation::STOCKADE => 's',
            Designation::CAPITOL => 'C',
            Designation::SPECIAL => '?',
            Designation::LUMBERYARD => 'l',
            Designation::BLACKSMITH => 'b',
            Designation::ROAD => '+',
            Designation::MILL => '*',
            Designation::GRANARY => 'g',
            Designation::CHURCH => '=',
            Designation::UNIVERSITY => 'u',
            Designation::NONE => '-',
            Designation::BASECAMP => 'P',
            Designation::UNKNOWN => '0',
        }
    }

    /// Renders this variant as its canonical uppercase display name.
    pub fn to_string(&self) -> (s: String)
        ensures
            s@ == designation_label(*self),
    {
        match self {
            Designation::TOWN => String::from_str("TOWN"),
            Designation::CITY => String::from_str("CITY"),
            Designation::MINE => String::from_str("MINE"),
            Designation::FARM => String::from_str("FARM"),
            Designation::DEVASTATED => String::from_str("DEVASTATED"),
            Designation::GOLDMINE => String::from_str("GOLDMINE"),
            Designation::FORT => String::from_str("FORT"),
            Designation::RUIN => String::from_str("RUIN"),
            Designation::STOCKADE => String::from_str("STOCKADE"),
            Designation::CAPITOL => String::from_str("CAPITOL"),
            Designation::SPECIAL => String::from_str("SPECIAL"),
            Designation::LUMBERYARD => String::from_str("LUMBERYARD"),
            Designation::BLACKSMITH => String::from_str("BLACKSMITH"),
            Designation::ROAD => String::from_str("ROAD"),
            Designation::MILL => String::from_str("MILL"),
            Designation::GRANARY => String::from_str("GRANARY"),
            Designation::CHURCH => String::from_str("CHURCH"),
            Designation::UNIVERSITY => String::from_str("UNIVERSITY"),
            Designation::NONE => String::from_str("NONE"),
            Designation::BASECAMP => String::from_str("BASECAMP"),
            Designation::UNKNOWN => String::from_str("UNKNOWN"),
        }
    }

    /// The ordinal of this variant.
    pub fn ordinal(&self) -> (n: i32)
        ensures
            n == designation_ordinal(*self),
    {
        match self {
            Designation::TOWN => 0,
            Designation::CITY => 1,
            Designation::MINE => 2,
            Designation::FARM => 3,
            Designation::DEVASTATED => 4,
            Designation::GOLDMINE => 5,
            Designation::FORT => 6,
            Designation::RUIN => 7,
            Designation::STOCKADE => 8,
            Designation::CAPITOL => 9,
            Designation::SPECIAL => 10,
            Designation::LUMBERYARD => 11,
            Designation::BLACKSMITH => 12,
            Designation::ROAD => 13,
            Designation::MILL => 14,
            Designation::GRANARY => 15,
            Designation::CHURCH => 16,
            Designation::UNIVERSITY => 17,
            Designation::NONE => 18,
            Designation::BASECAMP => 19,
            Designation::UNKNOWN => 20,
        }
    }
}

impl From<char> for Designation {
    /// Decodes a display character; an unrecognized character yields
    /// `UNKNOWN`, never a failure.
    fn from(c: char) -> (d: Designation) {
        match c {
            't' => Designation::TOWN,
            'c' => Designation::CITY,
            'm' => Designation::MINE,
            'f' => Designation::FARM,
            'x' => Designation::DEVASTATED,
            '$' => Designation::GOLDMINE,
            '!' => Designation::FORT,
            '&' => Designation::RUIN,
            's' => Designation::STOCKADE,
            'C' => Designation::CAPITOL,
            '?' => Designation::SPECIAL,
            'l' => Designation::LUMBERYARD,
            'b' => Designation::BLACKSMITH,
            '+' => Designation::ROAD,
            '*' => Designation::MILL,
            'g' => Designation::GRANARY,
            '=' => Designation::CHURCH,
            'u' => Designation::UNIVERSITY,
            '-' => Designation::NONE,
            'P' => Designation::BASECAMP,
            _ => Designation::UNKNOWN,
        }
    }
}

impl vstd::std_specs::convert::FromSpecImpl<char> for Designation {
    open spec fn obeys_from_spec() -> bool {
        true
    }

    open spec fn from_spec(c: char) -> Designation {
        designation_of_code(c)
    }
}

impl From<Designation> for char {
    /// Encodes a variant as its canonical display character.
    fn from(d: Designation) -> (c: char) {
        d.to_char()
    }
}

impl vstd::std_specs::convert::FromSpecImpl<Designation> for char {
    open spec fn obeys_from_spec() -> bool {
        true
    }

    open spec fn from_spec(d: Designation) -> char {
        designation_code(d)
    }
}

impl From<Designation> for i32 {
    /// The ordinal of a variant, for compact numeric storage.
    fn from(d: Designation) -> (n: i32) {
        d.ordinal()
    }
}

impl vstd::std_specs::convert::FromSpecImpl<Designation> for i32 {
    open spec fn obeys_from_spec() -> bool {
        true
    }

    open spec fn from_spec(d: Designation) -> i32 {
        designation_ordinal(d) as i32
    }
}

/// Law: every character that canonically encodes a variant other than
/// `UNKNOWN` survives a decode–encode round trip.
pub proof fn lemma_designation_code_round_trip(c: char)
    requires
        is_designation_code(c),
    ensures
        designation_code(designation_of_code(c)) == c,
{
}

/// Law: decoding is total; every character outside the canonical set decodes
/// to `UNKNOWN`, never to a failure.
pub proof fn lemma_designation_decode_total(c: char)
    requires
        !is_designation_code(c),
    ensures
        designation_of_code(c) == Designation::UNKNOWN,
{
}

/// Law: every variant other than `UNKNOWN` survives an encode–decode round
/// trip.
pub proof fn lemma_designation_variant_round_trip(d: Designation)
    requires
        d != Designation::UNKNOWN,
    ensures
        designation_of_code(designation_code(d)) == d,
{
}

/// Law: distinct variants carry distinct ordinals, so the ordinal alone
/// identifies a variant in compact storage.
pub proof fn lemma_designation_ordinal_distinct(a: Designation, b: Designation)
    requires
        a != b,
    ensures
        designation_ordinal(a) != designation_ordinal(b),
{
}

} // verus!
