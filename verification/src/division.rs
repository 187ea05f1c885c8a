//! The six divisions and the number of match days that each one has.

use crate::text::{ascii_lowercase, lowercase_reads};
use vstd::prelude::*;

verus! {

/// Match days of the two upper divisions.
pub const UPPER_MATCH_DAYS: u8 = 15;

/// Match days of the four lower divisions.
pub const LOWER_MATCH_DAYS: u8 = 7;

/// How many divisions there are.
pub const DIVISION_COUNT: usize = 6;

/// A competitive tier, from the highest to the lowest.
#[derive(Clone, Copy, Debug, PartialEq, Eq, Structural)]
pub enum Division {
    Makuuchi,
    Juryo,
    Makushita,
    Sandanme,
    Jonidan,
    Jonokuchi,
}

impl Division {
    /// The place of the division in the picker, counted from zero.
    pub open spec fn spec_index(self) -> int {
        match self {
            Division::Makuuchi => 0,
            Division::Juryo => 1,
            Division::Makushita => 2,
            Division::Sandanme => 3,
            Division::Jonidan => 4,
            Division::Jonokuchi => 5,
        }
    }

    /// The division at place `i` of the picker; the lowest one for any place
    /// past the end.
    pub open spec fn spec_from_index(i: int) -> Division {
        if i == 0 {
            Division::Makuuchi
        } else if i == 1 {
            Division::Juryo
        } else if i == 2 {
            Division::Makushita
        } else if i == 3 {
            Division::Sandanme
        } else if i == 4 {
            Division::Jonidan
        } else {
            Division::Jonokuchi
        }
    }

    /// The number of match days: fifteen in the two upper divisions, seven below.
    pub open spec fn spec_match_length(self) -> int {
        match self {
            Division::Makuuchi | Division::Juryo => 15,
            _ => 7,
        }
    }

    /// The name under which the division is shown and asked for.
    pub open spec fn spec_name(self) -> Seq<char> {
        match self {
            Division::Makuuchi => "Makuuchi"@,
            Division::Juryo => "Juryo"@,
            Division::Makushita => "Makushita"@,
            Division::Sandanme => "Sandanme"@,
            Division::Jonidan => "Jonidan"@,
            Division::Jonokuchi => "Jonokuchi"@,
        }
    }

    pub fn index(&self) -> (i: usize)
        ensures
            i == self.spec_index(),
            i < DIVISION_COUNT,
    {
        match self {
            Division::Makuuchi => 0,
            Division::Juryo => 1,
            Division::Makushita => 2,
            Division::Sandanme => 3,
            Division::Jonidan => 4,
            Division::Jonokuchi => 5,
        }
    }

    pub fn from_index(i: usize) -> (d: Division)
        ensures
            d == Division::spec_from_index(i as int),
            i < DIVISION_COUNT ==> d.spec_index() == i,
    {
        if i == 0 {
            Division::Makuuchi
        } else if i == 1 {
            Division::Juryo
        } else if i == 2 {
            Division::Makushita
        } else if i == 3 {
            Division::Sandanme
        } else if i == 4 {
            Division::Jonidan
        } else {
            Division::Jonokuchi
        }
    }

    pub fn match_length(&self) -> (days: u8)
        ensures
            days == self.spec_match_length(),
            days == UPPER_MATCH_DAYS || days == LOWER_MATCH_DAYS,
    {
        match self {
            Division::Makuuchi | Division::Juryo => UPPER_MATCH_DAYS,
            _ => LOWER_MATCH_DAYS,
        }
    }

    pub fn name(&self) -> (s: &'static str)
        ensures
            s@ == self.spec_name(),
    {
        match self {
            Division::Makuuchi => "Makuuchi",
            Division::Juryo => "Juryo",
            Division::Makushita => "Makushita",
            Division::Sandanme => "Sandanme",
            Division::Jonidan => "Jonidan",
            Division::Jonokuchi => "Jonokuchi",
        }
    }

    pub fn to_string(&self) -> (s: String)
        ensures
            s@ == self.spec_name(),
    {
        self.name().to_owned()
    }
}

/// The number of match days that goes with a division's name, whatever the case
/// of its ASCII letters: fifteen for the two upper divisions, seven for any
/// other text.
pub open spec fn named_match_length(name: Seq<char>) -> int {
    if ascii_lowercase(name) == "makuuchi"@ || ascii_lowercase(name) == "juryo"@ {
        15
    } else {
        7
    }
}

pub fn max_day_for_division(division: &str) -> (days: u8)
    ensures
        days == named_match_length(division@),
{
    if lowercase_reads(division, "makuuchi") || lowercase_reads(division, "juryo") {
        UPPER_MATCH_DAYS
    } else {
        LOWER_MATCH_DAYS
    }
}

/// Going to a place of the picker and back gives the same division.
pub proof fn lemma_index_round_trip(d: Division)
    ensures
        0 <= d.spec_index() < DIVISION_COUNT,
        Division::spec_from_index(d.spec_index()) == d,
{
}

/// The match days that go with a division's own name are the division's.
pub proof fn lemma_name_gives_match_length(d: Division)
    ensures
        named_match_length(d.spec_name()) == d.spec_match_length(),
{
    reveal_strlit("makuuchi");
    reveal_strlit("juryo");
    reveal_strlit("Makuuchi");
    reveal_strlit("Juryo");
    reveal_strlit("Makushita");
    reveal_strlit("Sandanme");
    reveal_strlit("Jonidan");
    reveal_strlit("Jonokuchi");
    let low = ascii_lowercase(d.spec_name());
    match d {
        Division::Makuuchi => {
            assert(low =~= "makuuchi"@);
        },
        Division::Juryo => {
            assert(low =~= "juryo"@);
        },
        Division::Makushita => {
            assert(low.len() == 9);
        },
        Division::Sandanme => {
            assert(low[0] == 's');
        },
        Division::Jonidan => {
            assert(low.len() == 7);
        },
        Division::Jonokuchi => {
            assert(low.len() == 9);
        },
    }
}

} // verus!
