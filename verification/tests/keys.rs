use sumo_tui::division::Division;
use sumo_tui::model::{
    BanzukeEntry, Basho, HeadToHeadResponse, MatchRecord, RikishiDetails, TorikumiEntry,
};
use sumo_tui::session::{App, AppView, InputMode, Key};
use sumo_tui::tournament::TournamentId;

fn new_app() -> App {
    App::new(TournamentId::new(2025, 1).unwrap(), Division::Makuuchi, 5)
}

fn wrestler(id: u32, results: &[&str]) -> BanzukeEntry {
    BanzukeEntry {
        side: "East".to_string(),
        rikishi_id: id,
        shikona_en: format!("Rikishi {}", id),
        rank_value: id,
        rank: format!("Maegashira {} East", id),
        record: Some(
            results
                .iter()
                .map(|r| MatchRecord {
                    result: r.to_string(),
                    opponent_shikona_en: String::new(),
                    opponent_shikona_jp: String::new(),
                    kimarite: None,
                })
                .collect(),
        ),
    }
}

fn bout(east_id: u32, west_id: u32) -> TorikumiEntry {
    TorikumiEntry {
        id: format!("202501-1-{}-{}", east_id, west_id),
        basho_id: "202501".to_string(),
        division: "Makuuchi".to_string(),
        day: 1,
        match_no: 1,
        east_id,
        east_shikona: format!("East {}", east_id),
        east_rank: "Maegashira 1 East".to_string(),
        west_id,
        west_shikona: format!("West {}", west_id),
        west_rank: "Maegashira 1 West".to_string(),
        kimarite: None,
        winner_id: None,
        winner_en: None,
        winner_jp: None,
    }
}

fn profile(id: u32) -> RikishiDetails {
    RikishiDetails {
        id,
        shikona_en: "Hoshoryu".to_string(),
        shikona_jp: String::new(),
        current_rank: None,
        heya: None,
        birth_date: None,
        shusshin: None,
        height: Some(188),
        weight: Some(150),
        debut: None,
    }
}

fn record_of_two() -> HeadToHeadResponse {
    HeadToHeadResponse {
        total: 0,
        rikishi_wins: 0,
        opponent_wins: 0,
        kimarite_wins: None,
        kimarite_losses: None,
        matches: Vec::new(),
    }
}

fn type_text(app: &mut App, text: &str) {
    for c in text.chars() {
        app.on_key(Key::Char(c));
    }
}

#[test]
fn new_session_is_blank() {
    let app = new_app();
    assert!(!app.should_quit);
    assert!(app.basho.is_none() && app.banzuke.is_none() && app.torikumi.is_none());
    assert_eq!(app.current_view, AppView::Torikumi);
    assert_eq!(app.input_mode, InputMode::Normal);
    assert_eq!((app.selected_index, app.scroll_offset), (0, 0));
    assert_eq!(app.division, Division::Makuuchi);
    assert_eq!(app.day, 5);
    assert_eq!(app.basho_id.to_string(), "202501");
    assert!(app.record_map.is_empty());
    assert!(app.input_buffer.is_empty());
    assert!(!app.needs_reload && !app.basho_changed && !app.show_help);
    assert!(app.requested_rikishi_id.is_none() && app.requested_head_to_head.is_none());
    assert!(app.status_message.is_none() && app.loading_overlay.is_none());
}

#[test]
fn q_quits_and_h_toggles_help() {
    let mut app = new_app();
    app.on_key(Key::Char('h'));
    assert!(app.show_help);
    app.on_key(Key::F(1));
    assert!(!app.show_help);
    app.on_key(Key::F(2));
    assert!(!app.show_help);
    app.on_key(Key::F(1));
    app.on_key(Key::Esc);
    assert!(!app.show_help);
    assert!(!app.should_quit);
    app.on_key(Key::Char('q'));
    assert!(app.should_quit);
}

#[test]
fn views_are_picked_and_stepped_through() {
    let mut app = new_app();
    app.on_key(Key::Char('2'));
    assert_eq!(app.current_view, AppView::Banzuke);
    app.on_key(Key::Char('3'));
    assert_eq!(app.current_view, AppView::BashoInfo);
    app.on_key(Key::Right);
    assert_eq!(app.current_view, AppView::BashoInfo);
    app.on_key(Key::Left);
    assert_eq!(app.current_view, AppView::Banzuke);
    app.on_key(Key::Char('a'));
    assert_eq!(app.current_view, AppView::Torikumi);
    app.on_key(Key::Left);
    assert_eq!(app.current_view, AppView::Torikumi);
    app.on_key(Key::Char('d'));
    assert_eq!(app.current_view, AppView::Banzuke);
    app.on_key(Key::Char('1'));
    assert_eq!(app.current_view, AppView::Torikumi);
}

#[test]
fn stepping_to_another_view_resets_the_selection() {
    let mut app = new_app();
    app.set_torikumi((0..30).map(|i| bout(i, i + 100)).collect());
    for _ in 0..15 {
        app.on_key(Key::Down);
    }
    assert_eq!((app.selected_index, app.scroll_offset), (15, 6));
    app.on_key(Key::Left);
    assert_eq!((app.selected_index, app.scroll_offset), (15, 6));
    app.on_key(Key::Right);
    assert_eq!(app.current_view, AppView::Banzuke);
    assert_eq!((app.selected_index, app.scroll_offset), (0, 0));
}

#[test]
fn selection_moves_and_the_window_follows() {
    let mut app = new_app();
    app.set_torikumi((0..12).map(|i| bout(i, i + 100)).collect());
    app.on_key(Key::Up);
    assert_eq!((app.selected_index, app.scroll_offset), (0, 0));
    for _ in 0..9 {
        app.on_key(Key::Char('s'));
    }
    assert_eq!((app.selected_index, app.scroll_offset), (9, 0));
    app.on_key(Key::Down);
    assert_eq!((app.selected_index, app.scroll_offset), (10, 1));
    app.on_key(Key::Down);
    assert_eq!((app.selected_index, app.scroll_offset), (11, 2));
    app.on_key(Key::Down);
    assert_eq!((app.selected_index, app.scroll_offset), (11, 2));
    for _ in 0..9 {
        app.on_key(Key::Char('w'));
    }
    assert_eq!((app.selected_index, app.scroll_offset), (2, 2));
    app.on_key(Key::Up);
    assert_eq!((app.selected_index, app.scroll_offset), (1, 1));
}

#[test]
fn selection_stays_on_the_list_after_any_key() {
    let keys = [
        Key::Char('1'),
        Key::Char('2'),
        Key::Char('3'),
        Key::Up,
        Key::Down,
        Key::Left,
        Key::Right,
        Key::Enter,
        Key::Esc,
        Key::Char('s'),
        Key::Char('w'),
        Key::Other,
    ];
    let mut app = new_app();
    app.set_torikumi((0..3).map(|i| bout(i, i + 100)).collect());
    app.set_banzuke((0..2).map(|i| wrestler(i, &[])).collect());
    for round in 0..4 {
        for (i, key) in keys.iter().enumerate() {
            for _ in 0..(i + round) % 5 {
                app.on_key(Key::Down);
            }
            app.on_key(*key);
            let count = match app.current_view {
                AppView::Torikumi => 3,
                AppView::Banzuke => 2,
                AppView::BashoInfo => 0,
            };
            assert!(app.selected_index < count || (count == 0 && app.selected_index == 0));
        }
    }
}

#[test]
fn stale_selection_is_brought_back_onto_the_list() {
    let mut app = new_app();
    app.set_torikumi((0..20).map(|i| bout(i, i + 100)).collect());
    for _ in 0..19 {
        app.on_key(Key::Down);
    }
    assert_eq!((app.selected_index, app.scroll_offset), (19, 10));
    app.set_torikumi((0..4).map(|i| bout(i, i + 100)).collect());
    app.on_key(Key::Other);
    assert_eq!((app.selected_index, app.scroll_offset), (3, 3));
    app.set_torikumi(Vec::new());
    app.on_key(Key::Char('h'));
    assert_eq!((app.selected_index, app.scroll_offset), (0, 0));
}

#[test]
fn no_selection_moves_in_the_info_view() {
    let mut app = new_app();
    app.set_torikumi((0..3).map(|i| bout(i, i + 100)).collect());
    app.on_key(Key::Char('3'));
    app.on_key(Key::Down);
    assert_eq!(app.selected_index, 0);
    app.on_key(Key::Enter);
    assert!(app.requested_rikishi_id.is_none() && app.requested_head_to_head.is_none());
}

#[test]
fn confirm_asks_for_the_selected_wrestler() {
    let mut app = new_app();
    app.set_banzuke(vec![wrestler(11, &[]), wrestler(22, &[]), wrestler(33, &[])]);
    app.on_key(Key::Char('2'));
    app.on_key(Key::Down);
    app.on_key(Key::Enter);
    assert_eq!(app.requested_rikishi_id, Some(22));
    assert!(app.requested_head_to_head.is_none());
    app.on_key(Key::Down);
    app.on_key(Key::Char(' '));
    assert_eq!(app.requested_rikishi_id, Some(33));
}

#[test]
fn confirm_asks_for_the_two_wrestlers_of_the_selected_bout() {
    let mut app = new_app();
    app.set_torikumi(vec![bout(1, 2), bout(3, 4)]);
    app.on_key(Key::Down);
    app.on_key(Key::Enter);
    assert_eq!(app.requested_head_to_head, Some((3, 4)));
    assert!(app.requested_rikishi_id.is_none());
}

#[test]
fn confirm_on_an_empty_list_asks_for_nothing() {
    let mut app = new_app();
    app.on_key(Key::Enter);
    app.on_key(Key::Char('2'));
    app.on_key(Key::Enter);
    app.set_banzuke(Vec::new());
    app.on_key(Key::Enter);
    assert!(app.requested_rikishi_id.is_none() && app.requested_head_to_head.is_none());
}

#[test]
fn second_request_is_dropped_while_a_profile_is_on_its_way() {
    let mut app = new_app();
    app.set_banzuke(vec![wrestler(11, &[]), wrestler(22, &[])]);
    app.on_key(Key::Char('2'));
    app.on_key(Key::Enter);
    assert_eq!(app.take_rikishi_request(), Some(11));
    assert!(app.requested_rikishi_id.is_none());
    // The profile has not come back yet, and the same row is confirmed again.
    app.on_key(Key::Enter);
    assert_eq!(app.take_rikishi_request(), None);
    assert!(app.requested_rikishi_id.is_none());
    app.rikishi_details_loaded(Ok(profile(11)));
    assert!(app.show_rikishi_details);
    assert_eq!(app.rikishi_details.as_ref().map(|d| d.id), Some(11));
    assert_eq!(app.take_rikishi_request(), None);
    // With the profile back, a request is handed out again.
    app.on_key(Key::Enter);
    assert_eq!(app.take_rikishi_request(), Some(11));
}

#[test]
fn two_confirms_before_a_poll_make_one_request() {
    let mut app = new_app();
    app.set_torikumi(vec![bout(1, 2), bout(3, 4)]);
    app.on_key(Key::Enter);
    app.on_key(Key::Down);
    app.on_key(Key::Enter);
    assert_eq!(app.take_head_to_head_request(), Some((3, 4)));
    assert_eq!(app.take_head_to_head_request(), None);
    app.on_key(Key::Enter);
    assert_eq!(app.take_head_to_head_request(), None);
    app.head_to_head_loaded(Ok(record_of_two()));
    assert!(app.show_head_to_head && app.head_to_head_data.is_some());
}

#[test]
fn failed_detail_fetch_shows_nothing_and_is_reported() {
    let mut app = new_app();
    app.set_banzuke(vec![wrestler(11, &[])]);
    app.on_key(Key::Char('2'));
    app.on_key(Key::Enter);
    assert_eq!(app.take_rikishi_request(), Some(11));
    app.rikishi_details_loaded(Err("timed out".to_string()));
    assert!(!app.show_rikishi_details && app.rikishi_details.is_none());
    assert_eq!(app.status_message.as_deref(), Some("Error loading rikishi details: timed out"));
    app.head_to_head_loaded(Err("no route".to_string()));
    assert!(!app.show_head_to_head && app.head_to_head_data.is_none());
    assert_eq!(app.status_message.as_deref(), Some("Error loading head-to-head data: no route"));
}

#[test]
fn escape_closes_profile_then_record_then_help() {
    let mut app = new_app();
    app.on_key(Key::Char('h'));
    app.rikishi_details_loaded(Ok(profile(1)));
    app.head_to_head_loaded(Ok(record_of_two()));
    app.on_key(Key::Esc);
    assert!(!app.show_rikishi_details && app.rikishi_details.is_none());
    assert!(app.show_head_to_head && app.show_help);
    app.on_key(Key::Esc);
    assert!(!app.show_head_to_head && app.head_to_head_data.is_none());
    assert!(app.show_help);
    app.on_key(Key::Esc);
    assert!(!app.show_help);
}

#[test]
fn typed_day_is_committed_on_enter() {
    let mut app = new_app();
    app.on_key(Key::Char('c'));
    assert_eq!(app.input_mode, InputMode::EditingDay);
    type_text(&mut app, "1x2q");
    assert_eq!(app.input_buffer, "12");
    assert!(!app.should_quit);
    app.on_key(Key::Enter);
    assert_eq!(app.day, 12);
    assert!(app.needs_reload);
    assert_eq!(app.input_mode, InputMode::Normal);
    assert!(app.input_buffer.is_empty());
}

#[test]
fn backspace_takes_the_last_digit_back() {
    let mut app = new_app();
    app.on_key(Key::Char('c'));
    app.on_key(Key::Backspace);
    type_text(&mut app, "19");
    app.on_key(Key::Backspace);
    assert_eq!(app.input_buffer, "1");
    app.on_key(Key::Enter);
    assert_eq!(app.day, 1);
}

#[test]
fn day_out_of_range_is_dropped_in_silence() {
    for text in ["0", "16", "99", "256", "", "99999999999999999999999"] {
        let mut app = new_app();
        app.on_key(Key::Char('c'));
        type_text(&mut app, text);
        app.on_key(Key::Enter);
        assert_eq!(app.day, 5);
        assert!(!app.needs_reload);
        assert_eq!(app.input_mode, InputMode::Normal);
        assert!(app.input_buffer.is_empty());
        assert!(app.status_message.is_none());
    }
}

#[test]
fn day_with_leading_zeros_counts() {
    let mut app = new_app();
    app.on_key(Key::Char('c'));
    type_text(&mut app, "0000000000000000000000015");
    app.on_key(Key::Enter);
    assert_eq!(app.day, 15);
    assert!(app.needs_reload);
}

#[test]
fn day_of_a_short_division_is_taken_as_typed() {
    let mut app = App::new(TournamentId::new(2025, 1).unwrap(), Division::Makushita, 3);
    app.on_key(Key::Char('c'));
    type_text(&mut app, "10");
    app.on_key(Key::Enter);
    assert_eq!(app.day, 10);
    assert!(app.needs_reload);
}

#[test]
fn division_is_picked_from_the_list() {
    let mut app = App::new(TournamentId::new(2025, 1).unwrap(), Division::Sandanme, 3);
    app.on_key(Key::Char('v'));
    assert_eq!(app.input_mode, InputMode::SelectingDivision);
    assert_eq!(app.division_selector_index, 3);
    app.on_key(Key::Char('w'));
    assert_eq!(app.division_selector_index, 3);
    app.on_key(Key::Up);
    assert_eq!(app.division_selector_index, 2);
    for _ in 0..9 {
        app.on_key(Key::Down);
    }
    assert_eq!(app.division_selector_index, 5);
    for _ in 0..9 {
        app.on_key(Key::Up);
    }
    assert_eq!(app.division_selector_index, 0);
    app.on_key(Key::Down);
    app.on_key(Key::Enter);
    assert_eq!(app.division, Division::Juryo);
    assert!(app.needs_reload);
    assert_eq!(app.input_mode, InputMode::Normal);
}

#[test]
fn typed_tournament_is_committed_on_enter() {
    let mut app = new_app();
    app.on_key(Key::Char('b'));
    assert_eq!(app.input_mode, InputMode::EditingBasho);
    type_text(&mut app, "2024x0799");
    assert_eq!(app.input_buffer, "202407");
    app.on_key(Key::Enter);
    assert_eq!(app.basho_id, TournamentId::new(2024, 7).unwrap());
    assert!(app.needs_reload && app.basho_changed);
    assert_eq!(app.input_mode, InputMode::Normal);
    assert!(app.input_buffer.is_empty());
}

#[test]
fn typing_the_same_tournament_again_is_no_change() {
    let mut app = new_app();
    app.on_key(Key::Char('b'));
    type_text(&mut app, "202501");
    app.on_key(Key::Enter);
    assert!(app.needs_reload);
    assert!(!app.basho_changed);
}

#[test]
fn tournament_that_is_none_is_dropped_in_silence() {
    for text in ["202402", "199911", "210101", "20250", "", "202500", "202513"] {
        let mut app = new_app();
        app.on_key(Key::Char('b'));
        type_text(&mut app, text);
        app.on_key(Key::Enter);
        assert_eq!(app.basho_id.to_string(), "202501");
        assert!(!app.needs_reload && !app.basho_changed);
        assert_eq!(app.input_mode, InputMode::Normal);
        assert!(app.input_buffer.is_empty());
    }
}

#[test]
fn first_and_last_year_can_be_typed() {
    for (text, year, month) in [("200001", 2000, 1), ("210011", 2100, 11)] {
        let mut app = new_app();
        app.on_key(Key::Char('b'));
        type_text(&mut app, text);
        app.on_key(Key::Enter);
        assert_eq!(app.basho_id, TournamentId::new(year, month).unwrap());
    }
}

#[test]
fn escape_leaves_every_editing_mode_without_a_commit() {
    for (enter, text) in [('c', "12"), ('v', ""), ('b', "202407")] {
        let mut app = new_app();
        app.on_key(Key::Char(enter));
        assert!(app.input_mode != InputMode::Normal);
        type_text(&mut app, text);
        app.on_key(Key::Down);
        app.on_key(Key::Esc);
        assert_eq!(app.input_mode, InputMode::Normal);
        assert!(app.input_buffer.is_empty());
        assert_eq!(app.day, 5);
        assert_eq!(app.division, Division::Makuuchi);
        assert_eq!(app.basho_id.to_string(), "202501");
        assert!(!app.needs_reload && !app.basho_changed);
    }
}

#[test]
fn editing_keys_do_not_reach_normal_mode() {
    let mut app = new_app();
    app.on_key(Key::Char('c'));
    app.on_key(Key::Char('q'));
    app.on_key(Key::Char('2'));
    assert!(!app.should_quit);
    assert_eq!(app.current_view, AppView::Torikumi);
    assert_eq!(app.input_buffer, "2");
}

#[test]
fn ranking_list_is_stored_with_its_wins_and_losses() {
    let mut app = new_app();
    app.set_banzuke(vec![
        wrestler(1, &["win", "win", "loss", "fusen-loss"]),
        wrestler(2, &["W", "l", "absent"]),
        wrestler(3, &[]),
    ]);
    assert_eq!(app.record_map.get(&1), Some(&(2, 2)));
    assert_eq!(app.record_map.get(&2), Some(&(1, 1)));
    assert_eq!(app.record_map.get(&3), Some(&(0, 0)));
    assert_eq!(app.record_map.len(), 3);
    app.set_banzuke(vec![wrestler(9, &["win"])]);
    assert_eq!(app.record_map.len(), 1);
    assert_eq!(app.record_map.get(&9), Some(&(1, 0)));
    app.banzuke = None;
    app.recompute_records();
    assert!(app.record_map.is_empty());
}

#[test]
fn last_listing_of_a_wrestler_counts() {
    let mut app = new_app();
    app.set_banzuke(vec![wrestler(1, &["win"]), wrestler(1, &["loss", "loss"])]);
    assert_eq!(app.record_map.len(), 1);
    assert_eq!(app.record_map.get(&1), Some(&(0, 2)));
}

#[test]
fn tournament_information_is_stored_and_nothing_else_changes() {
    let mut app = new_app();
    app.set_banzuke(vec![wrestler(1, &["win"])]);
    app.on_key(Key::Char('2'));
    app.set_basho(Basho {
        date: Some("2025-01".to_string()),
        location: Some("Tokyo".to_string()),
        start_date: Some("2025-01-12T00:00:00Z".to_string()),
        end_date: None,
        yusho: None,
        sansho: None,
    });
    assert_eq!(app.basho.as_ref().unwrap().location.as_deref(), Some("Tokyo"));
    assert_eq!(app.current_view, AppView::Banzuke);
    assert_eq!(app.day, 5);
    assert_eq!(app.record_map.get(&1), Some(&(1, 0)));
    assert!(!app.needs_reload);
}

#[test]
fn only_enter_commits_what_is_typed() {
    let keys = [
        Key::Char('7'),
        Key::Char('x'),
        Key::Backspace,
        Key::Up,
        Key::Down,
        Key::Left,
        Key::Right,
        Key::F(1),
        Key::Other,
    ];
    for enter in ['c', 'v', 'b'] {
        for key in keys {
            let mut app = new_app();
            app.on_key(Key::Char(enter));
            let mode = app.input_mode;
            app.on_key(key);
            assert_eq!(app.input_mode, mode);
            assert_eq!(app.day, 5);
            assert_eq!(app.division, Division::Makuuchi);
            assert_eq!(app.basho_id, TournamentId::new(2025, 1).unwrap());
            assert!(!app.needs_reload);
            assert!(!app.basho_changed);
        }
    }
}
