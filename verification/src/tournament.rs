//! Tournament identifiers: a year and one of the six tournament months.

use crate::text::{
    all_digits, chars_between, chars_of, decimal_value, four_digit_text, is_digit,
    lemma_four_digit_text, lemma_short_runs_are_small, lemma_two_digit_text, parse_digits,
    parse_signed, parse_unsigned, push_four_digits, push_two_digits, signed_value,
    two_digit_text, unsigned_value,
};
use vstd::prelude::*;

verus! {

/// Whether `month` is one of the six months in which a tournament is held.
pub open spec fn is_basho_month(month: int) -> bool {
    month == 1 || month == 3 || month == 5 || month == 7 || month == 9 || month == 11
}

/// The last year that an identifier can hold in its four digits.
pub const MAX_YEAR: i32 = 9999;

/// A tournament: a year and a tournament month.
#[derive(Clone, Copy, Debug, PartialEq, Eq, Structural)]
pub struct TournamentId {
    year: i32,
    month: u32,
}

/// What a text of exactly six digits denotes: the year of its first four and
/// the month of its last two.
pub open spec fn six_digit_parts(s: Seq<char>) -> Option<(int, int)> {
    if s.len() == 6 && all_digits(s) {
        Some((decimal_value(s.take(4)), decimal_value(s.skip(4))))
    } else {
        None
    }
}

impl TournamentId {
    pub closed spec fn spec_year(self) -> int {
        self.year as int
    }

    pub closed spec fn spec_month(self) -> int {
        self.month as int
    }

    /// The identifier of a year and a month.
    pub closed spec fn of(year: int, month: int) -> TournamentId {
        TournamentId { year: year as i32, month: month as u32 }
    }

    /// The year has four digits at most and the month is a tournament month.
    #[verifier::type_invariant]
    pub open spec fn wf(self) -> bool {
        &&& 0 <= self.spec_year() <= MAX_YEAR
        &&& is_basho_month(self.spec_month())
    }

    /// The six digits that the identifier is written as.
    pub open spec fn text(self) -> Seq<char> {
        four_digit_text(self.spec_year() as nat) + two_digit_text(self.spec_month() as nat)
    }

    /// The identifier that a text of six digits denotes, where its month is a
    /// tournament month.
    pub open spec fn spec_parse(s: Seq<char>) -> Option<TournamentId> {
        match six_digit_parts(s) {
            Some((year, month)) => if is_basho_month(month) {
                Some(TournamentId::of(year, month))
            } else {
                None
            },
            None => None,
        }
    }

    /// An identifier holds the year and the month that it was made of.
    pub proof fn lemma_of(year: int, month: int)
        requires
            0 <= year <= MAX_YEAR,
            is_basho_month(month),
        ensures
            TournamentId::of(year, month).spec_year() == year,
            TournamentId::of(year, month).spec_month() == month,
            TournamentId::of(year, month).wf(),
    {
    }

    /// Two identifiers with the same year and month are the same identifier.
    pub proof fn lemma_same(a: TournamentId, b: TournamentId)
        requires
            a.spec_year() == b.spec_year(),
            a.spec_month() == b.spec_month(),
        ensures
            a == b,
    {
    }

    /// Reading the six digits that an identifier is written as gives the
    /// identifier back.
    pub proof fn lemma_text_reads_back(id: TournamentId)
        requires
            id.wf(),
        ensures
            id.text().len() == 6,
            TournamentId::spec_parse(id.text()) == Some(id),
    {
        let year = four_digit_text(id.spec_year() as nat);
        let month = two_digit_text(id.spec_month() as nat);
        lemma_four_digit_text(id.spec_year() as nat);
        lemma_two_digit_text(id.spec_month() as nat);
        let text = id.text();
        assert(text.take(4) =~= year);
        assert(text.skip(4) =~= month);
        assert forall|i: int| 0 <= i < text.len() implies is_digit(
            #[trigger] text[i],
        ) by {
            if i < 4 {
                assert(text[i] == year[i]);
            } else {
                assert(text[i] == month[i - 4]);
            }
        }
        TournamentId::lemma_of(id.spec_year(), id.spec_month());
        TournamentId::lemma_same(id, TournamentId::of(id.spec_year(), id.spec_month()));
    }

    pub fn new(year: i32, month: u32) -> (r: Option<TournamentId>)
        ensures
            r is Some <==> 0 <= year <= MAX_YEAR && is_basho_month(month as int),
            r is Some ==> r.unwrap() == TournamentId::of(year as int, month as int),
            r is Some ==> r.unwrap().spec_year() == year && r.unwrap().spec_month() == month,
    {
        if 0 <= year && year <= MAX_YEAR && (month == 1 || month == 3 || month == 5 || month == 7
            || month == 9 || month == 11) {
            Some(TournamentId { year, month })
        } else {
            None
        }
    }

    pub fn year(&self) -> (y: i32)
        ensures
            y == self.spec_year(),
            0 <= y <= MAX_YEAR,
    {
        proof {
            use_type_invariant(self);
        }
        self.year
    }

    pub fn month(&self) -> (m: u32)
        ensures
            m == self.spec_month(),
            is_basho_month(m as int),
    {
        proof {
            use_type_invariant(self);
        }
        self.month
    }

    pub fn to_string(&self) -> (s: String)
        ensures
            s@ == self.text(),
    {
        proof {
            use_type_invariant(self);
        }
        let mut s = String::new();
        push_four_digits(&mut s, self.year as u32);
        push_two_digits(&mut s, self.month);
        s
    }

    /// Reads an identifier from its six digits.
    pub fn parse(s: &str) -> (r: Option<TournamentId>)
        ensures
            r == TournamentId::spec_parse(s@),
    {
        let v = chars_of(s);
        TournamentId::parse_chars(&v)
    }

    /// Reads an identifier from its six digits.
    pub fn parse_chars(v: &Vec<char>) -> (r: Option<TournamentId>)
        ensures
            r == TournamentId::spec_parse(v@),
    {
        if v.len() != 6 {
            return None;
        }
        assert(v@.subrange(0, 4) =~= v@.take(4));
        assert(v@.subrange(4, 6) =~= v@.skip(4));
        assert(all_digits(v@) <==> all_digits(v@.take(4)) && all_digits(v@.skip(4))) by {
            if all_digits(v@) {
                assert forall|i: int| 0 <= i < 4 implies is_digit(
                    #[trigger] v@.take(4)[i],
                ) by {
                    assert(v@.take(4)[i] == v@[i]);
                }
                assert forall|i: int| 0 <= i < 2 implies is_digit(
                    #[trigger] v@.skip(4)[i],
                ) by {
                    assert(v@.skip(4)[i] == v@[i + 4]);
                }
            }
            if all_digits(v@.take(4)) && all_digits(v@.skip(4)) {
                assert forall|i: int| 0 <= i < 6 implies is_digit(#[trigger] v@[i]) by {
                    if i < 4 {
                        assert(v@.take(4)[i] == v@[i]);
                    } else {
                        assert(v@.skip(4)[i - 4] == v@[i]);
                    }
                }
            }
        }
        proof {
            if all_digits(v@.take(4)) {
                lemma_short_runs_are_small(v@.take(4));
            }
            if all_digits(v@.skip(4)) {
                lemma_short_runs_are_small(v@.skip(4));
            }
        }
        let year = match parse_digits(v, 0, 4, 9999) {
            Some(y) => y,
            None => {
                return None;
            },
        };
        let month = match parse_digits(v, 4, 6, 99) {
            Some(m) => m,
            None => {
                return None;
            },
        };
        TournamentId::new(year as i32, month as u32)
    }
}

/// The year and the month that the first six characters of a text denote: four
/// characters that read as a signed number, then two that read as an unsigned
/// one. Nothing is asked of the month.
pub open spec fn year_month_of(s: Seq<char>) -> Option<(int, int)> {
    if s.len() < 6 {
        None
    } else {
        match (
            signed_value(s.subrange(0, 4), i32::MAX as int),
            unsigned_value(s.subrange(4, 6), u32::MAX as int),
        ) {
            (Some(year), Some(month)) => Some((year, month)),
            _ => None,
        }
    }
}

pub fn parse_basho_year_month(basho_id: &str) -> (r: Option<(i32, u32)>)
    ensures
        r is Some <==> year_month_of(basho_id@) is Some,
        r is Some ==> r.unwrap().0 == year_month_of(basho_id@).unwrap().0 && r.unwrap().1
            == year_month_of(basho_id@).unwrap().1,
{
    let v = chars_of(basho_id);
    if v.len() < 6 {
        return None;
    }
    let head = chars_between(&v, 0, 4);
    let tail = chars_between(&v, 4, 6);
    let year = match parse_signed(&head) {
        Some(y) => y,
        None => {
            return None;
        },
    };
    let month = match parse_unsigned(&tail, u32::MAX) {
        Some(m) => m,
        None => {
            return None;
        },
    };
    Some((year, month))
}

/// The latest tournament month that is not after `month`, for a month from
/// January on.
pub open spec fn latest_basho_month(month: int) -> int {
    if month >= 11 {
        11
    } else if month % 2 == 1 {
        month
    } else {
        month - 1
    }
}

/// `latest_basho_month` gives a tournament month that is not after the month
/// asked for, and no tournament month lies between the two.
pub proof fn lemma_latest_basho_month(month: int)
    requires
        1 <= month,
    ensures
        is_basho_month(latest_basho_month(month)),
        latest_basho_month(month) <= month,
        forall|m: int| is_basho_month(m) && m <= month ==> m <= latest_basho_month(month),
        is_basho_month(month) ==> latest_basho_month(month) == month,
{
}

/// The year and month of the latest tournament that is not after a month of
/// a year: the month itself where it is a tournament month, else the latest
/// tournament month before it; November of the year before for a month
/// before January.
pub fn most_recent_basho_ym(year: i32, month: u32) -> (r: (i32, u32))
    requires
        month == 0 ==> year > i32::MIN,
    ensures
        is_basho_month(r.1 as int),
        month >= 1 ==> r.0 == year && r.1 <= month && r.1 == latest_basho_month(month as int),
        month >= 1 ==> forall|m: int| is_basho_month(m) && m <= month ==> m <= r.1,
        is_basho_month(month as int) ==> r.1 == month,
        month == 0 ==> r.0 == year - 1 && r.1 == 11,
{
    if month == 0 {
        (year - 1, 11)
    } else if month >= 11 {
        (year, 11)
    } else if month % 2 == 1 {
        (year, month)
    } else {
        (year, month - 1)
    }
}

/// The name that a tournament goes by, after the month in which it is held.
pub open spec fn basho_name(month: int) -> Seq<char> {
    if month == 1 {
        "Hatsu Basho"@
    } else if month == 3 {
        "Haru Basho"@
    } else if month == 5 {
        "Natsu Basho"@
    } else if month == 7 {
        "Nagoya Basho"@
    } else if month == 9 {
        "Aki Basho"@
    } else if month == 11 {
        "Kyushu Basho"@
    } else {
        "Unknown Basho"@
    }
}

pub fn get_basho_name(month: u32) -> (name: &'static str)
    ensures
        name@ == basho_name(month as int),
{
    match month {
        1 => "Hatsu Basho",
        3 => "Haru Basho",
        5 => "Natsu Basho",
        7 => "Nagoya Basho",
        9 => "Aki Basho",
        11 => "Kyushu Basho",
        _ => "Unknown Basho",
    }
}

} // verus!
