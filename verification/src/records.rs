//! Reading bout outcomes and counting wins, losses and absences.

use crate::model::{
    records_view, BanzukeEntry, BanzukeEntryView, MatchRecord, MatchRecordView,
};
use crate::text::{contains, contains_text, lowercased, same_text, trimmed};
use vstd::prelude::*;

verus! {

/// What a bout outcome counts as.
#[derive(Clone, Copy, Debug, PartialEq, Eq, Structural)]
pub enum Outcome {
    Win,
    Loss,
    Other,
}

/// The exact reading of an outcome: the token `win` is a win, the token `loss`
/// is a loss, and every other text, a forfeit among them, is neither.
pub open spec fn exact_outcome(result: Seq<char>) -> Outcome {
    if result == "win"@ {
        Outcome::Win
    } else if result == "loss"@ {
        Outcome::Loss
    } else {
        Outcome::Other
    }
}

/// The tolerant reading of an outcome, from the text without the white space
/// around it and from the lower-case form of that: a win where the lower-case
/// form is `w` or holds `win`, or the text is a white circle; else a loss
/// where the lower-case form is `l` or holds `loss`, or the text is a black
/// circle; else neither.
pub open spec fn tolerant_outcome_of(text: Seq<char>, lowered: Seq<char>) -> Outcome {
    if lowered == "w"@ || contains_text(lowered, "win"@) || text == "\u{25cb}"@ {
        Outcome::Win
    } else if lowered == "l"@ || contains_text(lowered, "loss"@) || text == "\u{25cf}"@ {
        Outcome::Loss
    } else {
        Outcome::Other
    }
}

/// The tolerant reading of an outcome as it came from the data service.
pub open spec fn tolerant_outcome(result: Seq<char>) -> Outcome {
    tolerant_outcome_of(trimmed(result), lowercased(trimmed(result)))
}

/// Reads an outcome exactly.
pub fn classify_exact(result: &str) -> (outcome: Outcome)
    ensures
        outcome == exact_outcome(result@),
{
    if same_text(result, "win") {
        Outcome::Win
    } else if same_text(result, "loss") {
        Outcome::Loss
    } else {
        Outcome::Other
    }
}

/// Reads an outcome tolerantly, from the text without the white space around
/// it and from the lower-case form of that.
pub fn classify_parts(text: &str, lowered: &str) -> (outcome: Outcome)
    ensures
        outcome == tolerant_outcome_of(text@, lowered@),
{
    if same_text(lowered, "w") || contains(lowered, "win") || same_text(text, "\u{25cb}") {
        Outcome::Win
    } else if same_text(lowered, "l") || contains(lowered, "loss") || same_text(text, "\u{25cf}") {
        Outcome::Loss
    } else {
        Outcome::Other
    }
}

/// Reads an outcome tolerantly.
pub fn classify_tolerant(result: &str) -> (outcome: Outcome)
    ensures
        outcome == tolerant_outcome(result@),
{
    let text = result.trim();
    let lowered = text.to_lowercase();
    classify_parts(text, lowered.as_str())
}

/// How many of `records` the reading `read` takes for `which`.
pub open spec fn outcome_count(
    records: Seq<MatchRecordView>,
    read: spec_fn(Seq<char>) -> Outcome,
    which: Outcome,
) -> nat
    decreases records.len(),
{
    if records.len() == 0 {
        0
    } else {
        outcome_count(records.drop_last(), read, which) + if read(records.last().result)
            == which {
            1nat
        } else {
            0nat
        }
    }
}

/// A count as one byte holds it: 255 stands for every greater count.
pub open spec fn saturated(n: nat) -> u8 {
    if n > u8::MAX {
        u8::MAX
    } else {
        n as u8
    }
}

/// Wins and losses of a list of outcomes under the reading `read`.
pub open spec fn tally(records: Seq<MatchRecordView>, read: spec_fn(Seq<char>) -> Outcome) -> (
    u8,
    u8,
) {
    (
        saturated(outcome_count(records, read, Outcome::Win)),
        saturated(outcome_count(records, read, Outcome::Loss)),
    )
}

/// Wins and losses of one wrestler under the tolerant reading; none of either
/// where no outcomes are listed.
pub open spec fn tolerant_record(entry: BanzukeEntryView) -> (u8, u8) {
    match entry.record {
        Some(records) => tally(records, |r: Seq<char>| tolerant_outcome(r)),
        None => (0, 0),
    }
}

/// The days without a win or a loss out of `total` days.
pub open spec fn absences(total: int, wins: int, losses: int) -> int {
    if wins + losses >= total {
        0
    } else {
        total - wins - losses
    }
}

/// Wins, losses and absences of one wrestler under the exact reading, out of
/// `total` days; three zeros where no outcomes are listed.
pub open spec fn exact_record(entry: BanzukeEntryView, total: int) -> (u8, u8, u8) {
    match entry.record {
        Some(records) => {
            let (wins, losses) = tally(records, |r: Seq<char>| exact_outcome(r));
            (wins, losses, absences(total, wins as int, losses as int) as u8)
        },
        None => (0, 0, 0),
    }
}

/// Wins and losses by wrestler for a ranking list: each wrestler of the list
/// has an entry, and where a wrestler is listed more than once the last
/// listing counts.
pub open spec fn record_table(list: Seq<BanzukeEntryView>) -> Map<u32, (u8, u8)>
    decreases list.len(),
{
    if list.len() == 0 {
        Map::empty()
    } else {
        record_table(list.drop_last()).insert(list.last().rikishi_id, tolerant_record(list.last()))
    }
}

/// Counts wins and losses of `records`, tolerantly or exactly.
fn count_outcomes(records: &Vec<MatchRecord>, tolerant: bool) -> (r: (u8, u8))
    ensures
        tolerant ==> r == tally(records_view(records@), |r: Seq<char>| tolerant_outcome(r)),
        !tolerant ==> r == tally(records_view(records@), |r: Seq<char>| exact_outcome(r)),
{
    let ghost view = records_view(records@);
    let ghost read = if tolerant {
        |r: Seq<char>| tolerant_outcome(r)
    } else {
        |r: Seq<char>| exact_outcome(r)
    };
    let mut wins: u8 = 0;
    let mut losses: u8 = 0;
    let mut i: usize = 0;
    while i < records.len()
        invariant
            i <= records.len(),
            view == records_view(records@),
            read == (if tolerant {
                |r: Seq<char>| tolerant_outcome(r)
            } else {
                |r: Seq<char>| exact_outcome(r)
            }),
            wins == saturated(outcome_count(view.take(i as int), read, Outcome::Win)),
            losses == saturated(outcome_count(view.take(i as int), read, Outcome::Loss)),
        decreases records.len() - i,
    {
        assert(view.take(i + 1).drop_last() =~= view.take(i as int));
        assert(view.take(i + 1).last().result == records@[i as int].result@);
        let outcome = if tolerant {
            classify_tolerant(records[i].result.as_str())
        } else {
            classify_exact(records[i].result.as_str())
        };
        assert(outcome == read(records@[i as int].result@));
        match outcome {
            Outcome::Win => {
                wins = wins.saturating_add(1);
            },
            Outcome::Loss => {
                losses = losses.saturating_add(1);
            },
            Outcome::Other => {},
        }
        i = i + 1;
    }
    assert(view.take(i as int) =~= view);
    (wins, losses)
}

/// Wins and losses of one wrestler under the tolerant reading.
pub fn tolerant_record_of(entry: &BanzukeEntry) -> (r: (u8, u8))
    ensures
        r == tolerant_record(entry@),
{
    match &entry.record {
        Some(records) => count_outcomes(records, true),
        None => (0, 0),
    }
}

/// Wins, losses and absences of one wrestler under the exact reading, out of
/// `total_days` days.
pub fn exact_record_of(entry: &BanzukeEntry, total_days: u8) -> (r: (u8, u8, u8))
    ensures
        r == exact_record(entry@, total_days as int),
{
    match &entry.record {
        Some(records) => {
            let (wins, losses) = count_outcomes(records, false);
            let absent = total_days.saturating_sub(wins).saturating_sub(losses);
            (wins, losses, absent)
        },
        None => (0, 0, 0),
    }
}

/// Wins and losses never add up to more than there are outcomes.
pub proof fn lemma_counts_fit(records: Seq<MatchRecordView>, read: spec_fn(Seq<char>) -> Outcome)
    ensures
        outcome_count(records, read, Outcome::Win) + outcome_count(records, read, Outcome::Loss)
            <= records.len(),
    decreases records.len(),
{
    if records.len() > 0 {
        lemma_counts_fit(records.drop_last(), read);
    }
}

/// For a wrestler with outcomes listed, and no more of them than the division
/// has match days, wins, losses and absences under the exact reading add up to
/// the match days.
pub proof fn lemma_record_adds_up(entry: BanzukeEntryView, total: int)
    requires
        entry.record is Some,
        entry.record.unwrap().len() <= total <= u8::MAX,
    ensures
        exact_record(entry, total).0 + exact_record(entry, total).1 + exact_record(entry, total).2
            == total,
{
    lemma_counts_fit(entry.record.unwrap(), |r: Seq<char>| exact_outcome(r));
}

} // verus!
