//! Short texts for display: rank abbreviations and the month and year of a
//! tournament.

use crate::text::{
    ascii_upper, byte_range, chars_of, contains, contains_text, decimal_text, digits_in,
    digits_of, first_letter, first_letter_in, lowercased, parse_unsigned, push_decimal,
    slice_bytes, text_of, to_ascii_upper, trimmed, unsigned_value,
};
use crate::dates::{date_of, stamp_prefix_date, stamp_prefix_date_of, Date};
use vstd::prelude::*;
use vstd::utf8::encode_utf8;

verus! {

/// Whether `s` begins with the character `c`.
pub open spec fn starts_with(s: Seq<char>, c: char) -> bool {
    s.len() > 0 && s[0] == c
}

/// The abbreviation of a rank, from its text without the white space around
/// it and from the lower-case form of that. The four highest ranks are `Y`,
/// `O`, `S` and `K`; a rank-and-file wrestler of the top division is `M` and a
/// wrestler of the second division `J`, each followed by the digits of the
/// text; any other rank is its first ASCII letter in upper case followed by
/// its digits, or the text itself where it has no letter. A rank is known by
/// its name anywhere in the lower-case form or by its first letter.
pub open spec fn rank_label(text: Seq<char>, lowered: Seq<char>) -> Seq<char> {
    if contains_text(lowered, "yokozuna"@) || starts_with(text, 'Y') {
        seq!['Y']
    } else if contains_text(lowered, "ozeki"@) || starts_with(text, 'O') {
        seq!['O']
    } else if contains_text(lowered, "sekiwake"@) || starts_with(text, 'S') {
        seq!['S']
    } else if contains_text(lowered, "komusubi"@) || starts_with(text, 'K') {
        seq!['K']
    } else if contains_text(lowered, "maegashira"@) || starts_with(text, 'M') || starts_with(
        text,
        'm',
    ) {
        seq!['M'] + digits_of(text)
    } else if contains_text(lowered, "juryo"@) || starts_with(text, 'J') {
        seq!['J'] + digits_of(text)
    } else {
        match first_letter(text) {
            Some(c) => seq![ascii_upper(c)] + digits_of(text),
            None => text,
        }
    }
}

/// The text of one letter.
fn letter(c: char) -> (s: String)
    ensures
        s@ == seq![c],
{
    let mut s = String::new();
    s.push(c);
    s
}

/// The text of one letter followed by the digits of `text`.
fn letter_and_digits(c: char, text: &Vec<char>) -> (s: String)
    ensures
        s@ == seq![c] + digits_of(text@),
{
    let mut s = letter(c);
    let digits = digits_in(text);
    s.append(digits.as_str());
    s
}

/// Abbreviates a rank, from its text without the white space around it and
/// from the lower-case form of that.
pub fn abbr_rank_parts(text: &str, lowered: &str) -> (label: String)
    ensures
        label@ == rank_label(text@, lowered@),
{
    let r = chars_of(text);
    let first: Option<char> = if r.len() > 0 {
        Some(r[0])
    } else {
        None
    };
    if contains(lowered, "yokozuna") || first == Some('Y') {
        letter('Y')
    } else if contains(lowered, "ozeki") || first == Some('O') {
        letter('O')
    } else if contains(lowered, "sekiwake") || first == Some('S') {
        letter('S')
    } else if contains(lowered, "komusubi") || first == Some('K') {
        letter('K')
    } else if contains(lowered, "maegashira") || first == Some('M') || first == Some('m') {
        letter_and_digits('M', &r)
    } else if contains(lowered, "juryo") || first == Some('J') {
        letter_and_digits('J', &r)
    } else {
        match first_letter_in(&r) {
            Some(c) => letter_and_digits(to_ascii_upper(c), &r),
            None => text.to_owned(),
        }
    }
}

/// The abbreviation of a rank as it came from the data service.
pub open spec fn abbreviation(rank: Seq<char>) -> Seq<char> {
    rank_label(trimmed(rank), lowercased(trimmed(rank)))
}

pub fn abbr_rank(rank: &str) -> (label: String)
    ensures
        label@ == abbreviation(rank@),
{
    let text = rank.trim();
    let lowered = text.to_lowercase();
    abbr_rank_parts(text, lowered.as_str())
}

/// The name of a month in which a tournament is held.
pub open spec fn month_name(month: int) -> Seq<char> {
    if month == 1 {
        "January"@
    } else if month == 3 {
        "March"@
    } else if month == 5 {
        "May"@
    } else if month == 7 {
        "July"@
    } else if month == 9 {
        "September"@
    } else if month == 11 {
        "November"@
    } else {
        "Unknown"@
    }
}

/// The number that a stretch of bytes reads as, zero where it reads as none
/// or the stretch cannot be cut out.
pub open spec fn number_or_zero(s: Option<Seq<char>>) -> int {
    match s {
        Some(digits) => match unsigned_value(digits, u32::MAX as int) {
            Some(n) => n,
            None => 0,
        },
        None => 0,
    }
}

/// A tournament identifier for reading: the name of its month and its year.
/// A text that is not six bytes long stays as it is. The year is read from the
/// first four bytes and the month from the last two, each as zero where it
/// cannot be read.
pub open spec fn basho_date_text(s: Seq<char>) -> Seq<char> {
    if encode_utf8(s).len() != 6 {
        s
    } else {
        month_name(number_or_zero(byte_range(s, 4, 6))) + " "@ + decimal_text(
            number_or_zero(byte_range(s, 0, 4)) as nat,
        )
    }
}

/// The number that the bytes of `s` from `from` to `to` read as, or zero.
fn read_number(s: &str, from: usize, to: usize) -> (n: u32)
    ensures
        n == number_or_zero(byte_range(s@, from as int, to as int)),
{
    match slice_bytes(s, from, to) {
        Some(part) => {
            let digits = chars_of(part);
            match parse_unsigned(&digits, u32::MAX) {
                Some(n) => n,
                None => 0,
            }
        },
        None => 0,
    }
}

pub fn format_basho_date(basho_id: &str) -> (text: String)
    ensures
        text@ == basho_date_text(basho_id@),
{
    broadcast use vstd::slice::group_slice_axioms;

    if basho_id.as_bytes().len() != 6 {
        return basho_id.to_owned();
    }
    let year = read_number(basho_id, 0, 4);
    let month = read_number(basho_id, 4, 6);
    let name = match month {
        1 => "January",
        3 => "March",
        5 => "May",
        7 => "July",
        9 => "September",
        11 => "November",
        _ => "Unknown",
    };
    let mut text = String::from_str(name);
    text.append(" ");
    push_decimal(&mut text, year);
    text
}

/// What `char::to_uppercase` gives first for a character: the first
/// character of its Unicode upper-case form, if that has one.
pub uninterp spec fn first_uppercase(c: char) -> Option<char>;

/// The first character of the upper-case form of `c`.
///
/// Calls `char::to_uppercase` and takes the first character that it gives;
/// the contract gives the outcome the name [`first_uppercase`] and says
/// nothing more of it.
#[verifier::external_body]
fn upper_first(c: char) -> (r: Option<char>)
    ensures
        r == first_uppercase(c),
{
    c.to_uppercase().next()
}

/// A text with its first character in upper case; a first character whose
/// upper-case form is empty stays.
pub open spec fn capitalized(s: Seq<char>) -> Seq<char> {
    if s.len() == 0 {
        s
    } else {
        match first_uppercase(s[0]) {
            Some(upper) => seq![upper] + s.skip(1),
            None => s,
        }
    }
}

/// A text with its first character in upper case, as finishing techniques are
/// shown.
pub fn capitalize(s: &str) -> (r: String)
    ensures
        r@ == capitalized(s@),
{
    let chars = chars_of(s);
    if chars.len() == 0 {
        return s.to_owned();
    }
    match upper_first(chars[0]) {
        Some(upper) => {
            let mut r = letter(upper);
            let rest = text_of(&chars, 1, chars.len());
            r.append(rest.as_str());
            assert(chars@.subrange(1, chars@.len() as int) =~= s@.skip(1));
            r
        },
        None => s.to_owned(),
    }
}

/// The month in which a wrestler made his debut, for reading: year and month
/// with a hyphen between them. A text that is not six bytes long, or whose
/// fifth byte does not begin a character, stays as it is.
pub open spec fn debut_text(s: Seq<char>) -> Seq<char> {
    if encode_utf8(s).len() == 6 {
        match (byte_range(s, 0, 4), byte_range(s, 4, 6)) {
            (Some(year), Some(month)) => year + "-"@ + month,
            _ => s,
        }
    } else {
        s
    }
}

/// The month of a debut, for reading.
pub fn format_debut(debut: &str) -> (text: String)
    ensures
        text@ == debut_text(debut@),
{
    broadcast use vstd::slice::group_slice_axioms;

    if debut.as_bytes().len() != 6 {
        return debut.to_owned();
    }
    match (slice_bytes(debut, 0, 4), slice_bytes(debut, 4, 6)) {
        (Some(year), Some(month)) => {
            let mut text = year.to_owned();
            text.append("-");
            text.append(month);
            text
        },
        _ => debut.to_owned(),
    }
}

/// The age of a wrestler in brackets, from the time stamp of his birth: the
/// whole years from the day that its first ten bytes read as until today.
/// Nothing where they read as no day; the age zero where that day is later
/// than today.
pub open spec fn age_text(birth_date: Seq<char>, today: Date) -> Seq<char> {
    match stamp_prefix_date(birth_date) {
        Some(read) => " (Age: "@ + decimal_text(
            match today.spec_years_since(date_of(read)) {
                Some(years) => years as nat,
                None => 0,
            },
        ) + ")"@,
        None => Seq::empty(),
    }
}

/// The age of a wrestler in brackets.
pub fn format_age(birth_date: &str, today: Date) -> (text: String)
    ensures
        text@ == age_text(birth_date@, today),
{
    match stamp_prefix_date_of(birth_date) {
        Some(born) => {
            let years = match today.years_since(born) {
                Some(years) => years,
                None => 0,
            };
            let mut text = String::from_str(" (Age: ");
            push_decimal(&mut text, years);
            text.append(")");
            text
        },
        None => String::new(),
    }
}

} // verus!
