//! What the data service hands over: tournament information, ranking lists,
//! bouts of a day, wrestler profiles and head-to-head records.

use vstd::prelude::*;

verus! {

/// Information on one tournament.
#[derive(Debug, Clone)]
pub struct Basho {
    pub date: Option<String>,
    pub location: Option<String>,
    pub start_date: Option<String>,
    pub end_date: Option<String>,
    pub yusho: Option<Vec<YushoEntry>>,
    pub sansho: Option<Vec<SanshoEntry>>,
}

/// The champion of one division.
#[derive(Debug, Clone)]
pub struct YushoEntry {
    pub division: String,
    pub rikishi_id: u32,
    pub shikona_en: String,
    pub shikona_jp: String,
}

/// The winner of one special prize.
#[derive(Debug, Clone)]
pub struct SanshoEntry {
    pub award_type: String,
    pub rikishi_id: u32,
    pub shikona_en: String,
    pub shikona_jp: String,
}

/// The ranking list of one division, one list for each side.
#[derive(Debug, Clone)]
pub struct BanzukeResponse {
    pub basho_id: String,
    pub division: String,
    pub east: Vec<BanzukeEntry>,
    pub west: Vec<BanzukeEntry>,
}

/// One wrestler on the ranking list.
#[derive(Debug)]
pub struct BanzukeEntry {
    pub side: String,
    pub rikishi_id: u32,
    pub shikona_en: String,
    pub rank_value: u32,
    pub rank: String,
    pub record: Option<Vec<MatchRecord>>,
}

/// The outcome of one bout, seen from one wrestler.
#[derive(Debug)]
pub struct MatchRecord {
    pub result: String,
    pub opponent_shikona_en: String,
    pub opponent_shikona_jp: String,
    pub kimarite: Option<String>,
}

/// The bouts of one day in one division.
#[derive(Debug, Clone)]
pub struct TorikumiResponse {
    pub date: String,
    pub location: Option<String>,
    pub start_date: String,
    pub end_date: String,
    pub torikumi: Option<Vec<TorikumiEntry>>,
}

/// One bout, scheduled or fought.
#[derive(Debug, Clone)]
pub struct TorikumiEntry {
    pub id: String,
    pub basho_id: String,
    pub division: String,
    pub day: u8,
    pub match_no: u8,
    pub east_id: u32,
    pub east_shikona: String,
    pub east_rank: String,
    pub west_id: u32,
    pub west_shikona: String,
    pub west_rank: String,
    pub kimarite: Option<String>,
    pub winner_id: Option<u32>,
    pub winner_en: Option<String>,
    pub winner_jp: Option<String>,
}

/// The profile of one wrestler; height in centimetres, weight in kilograms.
#[derive(Debug, Clone)]
pub struct RikishiDetails {
    pub id: u32,
    pub shikona_en: String,
    pub shikona_jp: String,
    pub current_rank: Option<String>,
    pub heya: Option<String>,
    pub birth_date: Option<String>,
    pub shusshin: Option<String>,
    pub height: Option<u32>,
    pub weight: Option<u32>,
    pub debut: Option<String>,
}

/// How often one finishing technique decided a bout.
#[derive(Debug, Clone)]
pub struct KimariteCount {
    pub kimarite: String,
    pub count: u32,
}

/// The bouts that two wrestlers fought against each other.
#[derive(Debug, Clone)]
pub struct HeadToHeadResponse {
    pub total: u32,
    pub rikishi_wins: u32,
    pub opponent_wins: u32,
    pub kimarite_wins: Option<Vec<KimariteCount>>,
    pub kimarite_losses: Option<Vec<KimariteCount>>,
    pub matches: Vec<TorikumiEntry>,
}

/// A text that may be missing, as a sequence of characters.
pub open spec fn opt_text(s: Option<String>) -> Option<Seq<char>> {
    match s {
        Some(t) => Some(t@),
        None => None,
    }
}

/// What a bout outcome holds, as plain values.
pub struct MatchRecordView {
    pub result: Seq<char>,
    pub opponent_shikona_en: Seq<char>,
    pub opponent_shikona_jp: Seq<char>,
    pub kimarite: Option<Seq<char>>,
}

impl View for MatchRecord {
    type V = MatchRecordView;

    open spec fn view(&self) -> MatchRecordView {
        MatchRecordView {
            result: self.result@,
            opponent_shikona_en: self.opponent_shikona_en@,
            opponent_shikona_jp: self.opponent_shikona_jp@,
            kimarite: opt_text(self.kimarite),
        }
    }
}

/// The outcomes of a list of bouts, as plain values.
pub open spec fn records_view(v: Seq<MatchRecord>) -> Seq<MatchRecordView> {
    Seq::new(v.len(), |i: int| v[i]@)
}

/// What a ranking entry holds, as plain values.
pub struct BanzukeEntryView {
    pub side: Seq<char>,
    pub rikishi_id: u32,
    pub shikona_en: Seq<char>,
    pub rank_value: u32,
    pub rank: Seq<char>,
    pub record: Option<Seq<MatchRecordView>>,
}

impl View for BanzukeEntry {
    type V = BanzukeEntryView;

    open spec fn view(&self) -> BanzukeEntryView {
        BanzukeEntryView {
            side: self.side@,
            rikishi_id: self.rikishi_id,
            shikona_en: self.shikona_en@,
            rank_value: self.rank_value,
            rank: self.rank@,
            record: match self.record {
                Some(v) => Some(records_view(v@)),
                None => None,
            },
        }
    }
}

/// The entries of a ranking list, as plain values.
pub open spec fn entries_view(v: Seq<BanzukeEntry>) -> Seq<BanzukeEntryView> {
    Seq::new(v.len(), |i: int| v[i]@)
}

impl Clone for MatchRecord {
    fn clone(&self) -> (r: Self)
        ensures
            r@ == self@,
    {
        MatchRecord {
            result: self.result.clone(),
            opponent_shikona_en: self.opponent_shikona_en.clone(),
            opponent_shikona_jp: self.opponent_shikona_jp.clone(),
            kimarite: match &self.kimarite {
                Some(k) => Some(k.clone()),
                None => None,
            },
        }
    }
}

impl Clone for BanzukeEntry {
    fn clone(&self) -> (r: Self)
        ensures
            r@ == self@,
    {
        let record = match &self.record {
            Some(v) => {
                let mut copy: Vec<MatchRecord> = Vec::new();
                let mut i: usize = 0;
                while i < v.len()
                    invariant
                        i <= v.len(),
                        copy.len() == i,
                        forall|j: int| 0 <= j < i ==> copy@[j]@ == v@[j]@,
                    decreases v.len() - i,
                {
                    copy.push(v[i].clone());
                    i = i + 1;
                }
                assert(records_view(copy@) =~= records_view(v@));
                Some(copy)
            },
            None => None,
        };
        BanzukeEntry {
            side: self.side.clone(),
            rikishi_id: self.rikishi_id,
            shikona_en: self.shikona_en.clone(),
            rank_value: self.rank_value,
            rank: self.rank.clone(),
            record,
        }
    }
}

} // verus!
