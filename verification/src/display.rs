//! What the lists show: the window of rows that fits the screen and the texts
//! of each row.

use crate::division::Division;
use crate::labels::{
    abbr_rank, abbreviation, basho_date_text, capitalize, capitalized, format_basho_date,
};
use crate::model::{BanzukeEntry, TorikumiEntry};
use crate::records::{exact_record, exact_record_of};
use crate::text::{decimal_text, push_decimal, same_text};
use crate::tournament::{basho_name, get_basho_name, TournamentId};
use std::collections::HashMap;
use vstd::prelude::*;

verus! {

/// How many bouts of a head-to-head record are listed.
pub const RECENT_BOUTS: usize = 10;

/// The rows that a window of `height` rows shows of a list of `len` rows when
/// it is scrolled to `scroll_offset`: the first of them and the one behind the
/// last of them.
pub open spec fn window(scroll_offset: int, height: int, len: int) -> (int, int) {
    let start = if scroll_offset < len {
        scroll_offset
    } else {
        len
    };
    let end = if start + height < len {
        start + height
    } else {
        len
    };
    (start, end)
}

/// The rows that a window shows of a list.
pub fn visible_rows(scroll_offset: usize, height: usize, len: usize) -> (rows: (usize, usize))
    ensures
        rows.0 == window(scroll_offset as int, height as int, len as int).0,
        rows.1 == window(scroll_offset as int, height as int, len as int).1,
        rows.0 <= rows.1 <= len,
        rows.1 - rows.0 <= height,
{
    let start = if scroll_offset < len {
        scroll_offset
    } else {
        len
    };
    let end = if height < len - start {
        start + height
    } else {
        len
    };
    (start, end)
}

/// The wins and losses that the table holds for a wrestler; none of either
/// for a wrestler that it does not hold.
pub open spec fn record_in(records: Map<u32, (u8, u8)>, rikishi_id: u32) -> (u8, u8) {
    if records.contains_key(rikishi_id) {
        records[rikishi_id]
    } else {
        (0, 0)
    }
}

/// The wins and losses that the table holds for a wrestler.
pub fn record_for(records: &HashMap<u32, (u8, u8)>, rikishi_id: u32) -> (record: (u8, u8))
    ensures
        record == record_in(records@, rikishi_id),
{
    broadcast use vstd::std_specs::hash::group_hash_axioms;

    match records.get(&rikishi_id) {
        Some(record) => *record,
        None => (0, 0),
    }
}

/// A wrestler in a row of the bout list: name, abbreviated rank, and wins
/// and losses with a hyphen between them.
pub open spec fn wrestler_text(name: Seq<char>, label: Seq<char>, record: (u8, u8)) -> Seq<char> {
    name + " ("@ + label + ") ("@ + decimal_text(record.0 as nat) + "-"@ + decimal_text(
        record.1 as nat,
    ) + ")"@
}

/// A wrestler in a row of the bout list.
pub fn wrestler_line(name: &str, rank: &str, record: (u8, u8)) -> (line: String)
    ensures
        line@ == wrestler_text(name@, abbreviation(rank@), record),
{
    let mut line = name.to_owned();
    line.append(" (");
    line.append(abbr_rank(rank).as_str());
    line.append(") (");
    push_decimal(&mut line, record.0 as u32);
    line.append("-");
    push_decimal(&mut line, record.1 as u32);
    line.append(")");
    line
}

/// One row of the bout list.
pub struct BoutRow {
    pub east: String,
    pub west: String,
    /// The finishing technique, with its first letter in upper case.
    pub kimarite: String,
    pub east_won: bool,
    pub west_won: bool,
}

/// One row of the bout list, as plain values.
pub struct BoutRowView {
    pub east: Seq<char>,
    pub west: Seq<char>,
    pub kimarite: Seq<char>,
    pub east_won: bool,
    pub west_won: bool,
}

impl View for BoutRow {
    type V = BoutRowView;

    open spec fn view(&self) -> BoutRowView {
        BoutRowView {
            east: self.east@,
            west: self.west@,
            kimarite: self.kimarite@,
            east_won: self.east_won,
            west_won: self.west_won,
        }
    }
}

/// Whether a bout has a winner and he goes by `name`.
pub open spec fn won_by(bout: TorikumiEntry, name: Seq<char>) -> bool {
    match bout.winner_en {
        Some(winner) => winner@ == name,
        None => false,
    }
}

/// The finishing technique of a bout as it is shown: with its first letter in
/// upper case, and `N/A` where none is given.
pub open spec fn kimarite_text(kimarite: Option<String>) -> Seq<char> {
    match kimarite {
        Some(k) => capitalized(k@),
        None => capitalized("N/A"@),
    }
}

/// The row that the bout list shows for a bout: each wrestler with his rank
/// and with the wins and losses that the table holds for him, the finishing
/// technique, and which of the two won, if the bout names a winner.
pub open spec fn bout_row_of(bout: TorikumiEntry, records: Map<u32, (u8, u8)>) -> BoutRowView {
    BoutRowView {
        east: wrestler_text(
            bout.east_shikona@,
            abbreviation(bout.east_rank@),
            record_in(records, bout.east_id),
        ),
        west: wrestler_text(
            bout.west_shikona@,
            abbreviation(bout.west_rank@),
            record_in(records, bout.west_id),
        ),
        kimarite: kimarite_text(bout.kimarite),
        east_won: won_by(bout, bout.east_shikona@),
        west_won: won_by(bout, bout.west_shikona@),
    }
}

/// The finishing technique of a bout as it is shown.
pub fn kimarite_shown(kimarite: &Option<String>) -> (text: String)
    ensures
        text@ == kimarite_text(*kimarite),
{
    match kimarite {
        Some(k) => capitalize(k.as_str()),
        None => capitalize("N/A"),
    }
}

/// Whether a bout has a winner and he goes by `name`.
pub fn is_winner(bout: &TorikumiEntry, name: &str) -> (won: bool)
    ensures
        won == won_by(*bout, name@),
{
    match &bout.winner_en {
        Some(winner) => same_text(winner.as_str(), name),
        None => false,
    }
}

/// The row that the bout list shows for a bout.
pub fn bout_row(bout: &TorikumiEntry, records: &HashMap<u32, (u8, u8)>) -> (row: BoutRow)
    ensures
        row@ == bout_row_of(*bout, records@),
{
    BoutRow {
        east: wrestler_line(
            bout.east_shikona.as_str(),
            bout.east_rank.as_str(),
            record_for(records, bout.east_id),
        ),
        west: wrestler_line(
            bout.west_shikona.as_str(),
            bout.west_rank.as_str(),
            record_for(records, bout.west_id),
        ),
        kimarite: kimarite_shown(&bout.kimarite),
        east_won: is_winner(bout, bout.east_shikona.as_str()),
        west_won: is_winner(bout, bout.west_shikona.as_str()),
    }
}

/// Wins, losses and absences with hyphens between them.
pub open spec fn result_text(record: (u8, u8, u8)) -> Seq<char> {
    decimal_text(record.0 as nat) + "-"@ + decimal_text(record.1 as nat) + "-"@ + decimal_text(
        record.2 as nat,
    )
}

/// The result that the ranking list shows for a wrestler: wins, losses and
/// absences under the exact reading, out of `total_days` days.
pub fn result_line(entry: &BanzukeEntry, total_days: u8) -> (line: String)
    ensures
        line@ == result_text(exact_record(entry@, total_days as int)),
{
    let (wins, losses, absent) = exact_record_of(entry, total_days);
    let mut line = String::new();
    push_decimal(&mut line, wins as u32);
    line.append("-");
    push_decimal(&mut line, losses as u32);
    line.append("-");
    push_decimal(&mut line, absent as u32);
    line
}

/// The heading of the screen: the name of the tournament, its month and year,
/// the division and the day.
pub open spec fn header_text(id: TournamentId, division: Division, day: u8) -> Seq<char> {
    basho_name(id.spec_month()) + " Results - "@ + basho_date_text(id.text()) + " "@
        + division.spec_name() + " - Day "@ + decimal_text(day as nat)
}

/// The heading of the screen.
pub fn header_line(id: TournamentId, division: Division, day: u8) -> (line: String)
    ensures
        line@ == header_text(id, division, day),
{
    let mut line = String::from_str(get_basho_name(id.month()));
    line.append(" Results - ");
    line.append(format_basho_date(id.to_string().as_str()).as_str());
    line.append(" ");
    line.append(division.name());
    line.append(" - Day ");
    push_decimal(&mut line, day as u32);
    line
}

/// When a bout of a head-to-head record was fought: month and year of its
/// tournament, and the day.
pub open spec fn bout_date_text(bout: TorikumiEntry) -> Seq<char> {
    basho_date_text(bout.basho_id@) + " Day "@ + decimal_text(bout.day as nat) + ": "@
}

/// When a bout of a head-to-head record was fought.
pub fn bout_date_line(bout: &TorikumiEntry) -> (line: String)
    ensures
        line@ == bout_date_text(*bout),
{
    let mut line = format_basho_date(bout.basho_id.as_str());
    line.append(" Day ");
    push_decimal(&mut line, bout.day as u32);
    line.append(": ");
    line
}

/// How many bouts of a head-to-head record are listed, and how many are left
/// out: the first ten are listed.
pub fn listed_bouts(count: usize) -> (r: (usize, usize))
    ensures
        r.0 + r.1 == count,
        r.0 <= RECENT_BOUTS,
        count <= RECENT_BOUTS ==> r.0 == count,
        count > RECENT_BOUTS ==> r.0 == RECENT_BOUTS,
{
    if count > RECENT_BOUTS {
        (RECENT_BOUTS, count - RECENT_BOUTS)
    } else {
        (count, 0)
    }
}

} // verus!
