use std::collections::HashMap;
use sumo_tui::display::{
    bout_date_line, bout_row, header_line, is_winner, kimarite_shown, listed_bouts, record_for,
    result_line, visible_rows, wrestler_line,
};
use sumo_tui::division::Division;
use sumo_tui::model::{BanzukeEntry, MatchRecord, TorikumiEntry};
use sumo_tui::tournament::TournamentId;

fn hakuho_against_kakuryu(winner: Option<&str>, kimarite: Option<&str>) -> TorikumiEntry {
    TorikumiEntry {
        id: "202303-12-1-1-2".to_string(),
        basho_id: "202303".to_string(),
        division: "Makuuchi".to_string(),
        day: 12,
        match_no: 1,
        east_id: 1,
        east_shikona: "Hakuho".to_string(),
        east_rank: "Yokozuna 1 East".to_string(),
        west_id: 2,
        west_shikona: "Kakuryu".to_string(),
        west_rank: "Maegashira 14 West".to_string(),
        kimarite: kimarite.map(|k| k.to_string()),
        winner_id: None,
        winner_en: winner.map(|w| w.to_string()),
        winner_jp: None,
    }
}

fn listed(results: &[&str]) -> BanzukeEntry {
    BanzukeEntry {
        side: "East".to_string(),
        rikishi_id: 7,
        shikona_en: "Ura".to_string(),
        rank_value: 7,
        rank: "Maegashira 7 East".to_string(),
        record: Some(
            results
                .iter()
                .map(|r| MatchRecord {
                    result: r.to_string(),
                    opponent_shikona_en: String::new(),
                    opponent_shikona_jp: String::new(),
                    kimarite: None,
                })
                .collect(),
        ),
    }
}

#[test]
fn window_shows_the_rows_from_the_scroll_offset_on() {
    assert_eq!(visible_rows(0, 10, 25), (0, 10));
    assert_eq!(visible_rows(7, 10, 25), (7, 17));
    assert_eq!(visible_rows(20, 10, 25), (20, 25));
    assert_eq!(visible_rows(15, 10, 25), (15, 25));
}

#[test]
fn window_past_the_end_shows_nothing() {
    assert_eq!(visible_rows(25, 10, 25), (25, 25));
    assert_eq!(visible_rows(30, 10, 25), (25, 25));
    assert_eq!(visible_rows(0, 10, 0), (0, 0));
    assert_eq!(visible_rows(0, 0, 5), (0, 0));
}

#[test]
fn window_of_any_height_stays_on_the_list() {
    assert_eq!(visible_rows(3, usize::MAX, 5), (3, 5));
    assert_eq!(visible_rows(usize::MAX, usize::MAX, 5), (5, 5));
    assert_eq!(visible_rows(usize::MAX, 1, usize::MAX), (usize::MAX, usize::MAX));
}

#[test]
fn wrestler_is_shown_with_rank_and_record() {
    assert_eq!(wrestler_line("Hoshoryu", "Yokozuna 1 East", (10, 2)), "Hoshoryu (Y) (10-2)");
    assert_eq!(wrestler_line("Abi", " Maegashira 3 West ", (0, 0)), "Abi (M3) (0-0)");
    assert_eq!(wrestler_line("", "", (255, 255)), " () (255-255)");
}

#[test]
fn wrestler_that_the_table_lacks_has_no_wins_and_no_losses() {
    let mut records = HashMap::new();
    records.insert(1u32, (8u8, 3u8));
    assert_eq!(record_for(&records, 1), (8, 3));
    assert_eq!(record_for(&records, 2), (0, 0));
    assert_eq!(record_for(&HashMap::new(), 1), (0, 0));
}

#[test]
fn bout_row_marks_the_winner() {
    let mut records = HashMap::new();
    records.insert(1u32, (11u8, 0u8));
    let row = bout_row(&hakuho_against_kakuryu(Some("Hakuho"), Some("yorikiri")), &records);
    assert_eq!(row.east, "Hakuho (Y) (11-0)");
    assert_eq!(row.west, "Kakuryu (M14) (0-0)");
    assert_eq!(row.kimarite, "Yorikiri");
    assert!(row.east_won);
    assert!(!row.west_won);
    let row = bout_row(&hakuho_against_kakuryu(Some("Kakuryu"), Some("oshidashi")), &records);
    assert!(!row.east_won);
    assert!(row.west_won);
    assert_eq!(row.kimarite, "Oshidashi");
}

#[test]
fn bout_row_of_a_bout_to_come_marks_nobody() {
    let row = bout_row(&hakuho_against_kakuryu(None, None), &HashMap::new());
    assert_eq!(row.east, "Hakuho (Y) (0-0)");
    assert_eq!(row.kimarite, "N/A");
    assert!(!row.east_won);
    assert!(!row.west_won);
    let row = bout_row(&hakuho_against_kakuryu(Some("Terunofuji"), Some("")), &HashMap::new());
    assert_eq!(row.kimarite, "");
    assert!(!row.east_won);
    assert!(!row.west_won);
}

#[test]
fn winner_is_known_by_his_name() {
    let bout = hakuho_against_kakuryu(Some("Hakuho"), None);
    assert!(is_winner(&bout, "Hakuho"));
    assert!(!is_winner(&bout, "hakuho"));
    assert!(!is_winner(&bout, "Kakuryu"));
    assert!(!is_winner(&hakuho_against_kakuryu(None, None), ""));
}

#[test]
fn technique_is_shown_with_a_capital() {
    assert_eq!(kimarite_shown(&Some("uwatenage".to_string())), "Uwatenage");
    assert_eq!(kimarite_shown(&Some("Fusen".to_string())), "Fusen");
    assert_eq!(kimarite_shown(&None), "N/A");
}

#[test]
fn result_is_wins_losses_and_absences() {
    assert_eq!(result_line(&listed(&["win", "win", "loss", "fusen-loss"]), 7), "2-1-4");
    assert_eq!(result_line(&listed(&["win", "loss", "loss"]), 15), "1-2-12");
    assert_eq!(result_line(&listed(&[]), 15), "0-0-15");
    let mut silent = listed(&[]);
    silent.record = None;
    assert_eq!(result_line(&silent, 15), "0-0-0");
}

#[test]
fn heading_names_tournament_division_and_day() {
    let id = TournamentId::new(2025, 1).unwrap();
    assert_eq!(
        header_line(id, Division::Makuuchi, 5),
        "Hatsu Basho Results - January 2025 Makuuchi - Day 5"
    );
    let id = TournamentId::new(2024, 11).unwrap();
    assert_eq!(
        header_line(id, Division::Jonokuchi, 15),
        "Kyushu Basho Results - November 2024 Jonokuchi - Day 15"
    );
    let id = TournamentId::new(987, 7).unwrap();
    assert_eq!(header_line(id, Division::Juryo, 0), "Nagoya Basho Results - July 987 Juryo - Day 0");
}

#[test]
fn bout_of_a_record_is_dated() {
    assert_eq!(bout_date_line(&hakuho_against_kakuryu(None, None)), "March 2023 Day 12: ");
    let mut odd = hakuho_against_kakuryu(None, None);
    odd.basho_id = "2023".to_string();
    odd.day = 0;
    assert_eq!(bout_date_line(&odd), "2023 Day 0: ");
    odd.basho_id = "202304".to_string();
    assert_eq!(bout_date_line(&odd), "Unknown 2023 Day 0: ");
}

#[test]
fn ten_bouts_of_a_record_are_listed() {
    assert_eq!(listed_bouts(0), (0, 0));
    assert_eq!(listed_bouts(3), (3, 0));
    assert_eq!(listed_bouts(10), (10, 0));
    assert_eq!(listed_bouts(11), (10, 1));
    assert_eq!(listed_bouts(usize::MAX), (10, usize::MAX - 10));
}
