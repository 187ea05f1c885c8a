use sumo_tui::dates::Date;
use sumo_tui::division::{max_day_for_division, Division};
use sumo_tui::labels::{
    abbr_rank, abbr_rank_parts, capitalize, format_age, format_basho_date, format_debut,
};
use sumo_tui::tournament::{get_basho_name, parse_basho_year_month, TournamentId};

#[test]
fn upper_divisions_have_fifteen_days() {
    assert_eq!(max_day_for_division("makuuchi"), 15);
    assert_eq!(max_day_for_division("Juryo"), 15);
    assert_eq!(max_day_for_division("JURYO"), 15);
    assert_eq!(Division::Makuuchi.match_length(), 15);
    assert_eq!(Division::Juryo.match_length(), 15);
}

#[test]
fn lower_divisions_have_seven_days() {
    assert_eq!(max_day_for_division("Makushita"), 7);
    assert_eq!(max_day_for_division(""), 7);
    assert_eq!(max_day_for_division("makuuchi "), 7);
    assert_eq!(Division::Makushita.match_length(), 7);
    assert_eq!(Division::Sandanme.match_length(), 7);
    assert_eq!(Division::Jonidan.match_length(), 7);
    assert_eq!(Division::Jonokuchi.match_length(), 7);
}

#[test]
fn division_names_go_with_their_match_days() {
    for i in 0..6 {
        let d = Division::from_index(i);
        assert_eq!(d.index(), i);
        assert_eq!(max_day_for_division(d.name()), d.match_length());
        assert_eq!(d.to_string(), d.name());
    }
    assert_eq!(Division::from_index(0).name(), "Makuuchi");
    assert_eq!(Division::from_index(5).name(), "Jonokuchi");
    assert_eq!(Division::from_index(77), Division::Jonokuchi);
}

#[test]
fn identifier_is_written_as_six_digits() {
    assert_eq!(TournamentId::new(2025, 1).unwrap().to_string(), "202501");
    assert_eq!(TournamentId::new(2025, 11).unwrap().to_string(), "202511");
    assert_eq!(TournamentId::new(7, 3).unwrap().to_string(), "000703");
    assert_eq!(TournamentId::new(9999, 9).unwrap().to_string(), "999909");
}

#[test]
fn identifier_needs_a_tournament_month_and_four_digits() {
    assert!(TournamentId::new(2025, 2).is_none());
    assert!(TournamentId::new(2025, 0).is_none());
    assert!(TournamentId::new(2025, 13).is_none());
    assert!(TournamentId::new(-1, 1).is_none());
    assert!(TournamentId::new(10000, 1).is_none());
    let id = TournamentId::new(2024, 7).unwrap();
    assert_eq!((id.year(), id.month()), (2024, 7));
}

#[test]
fn identifier_is_read_from_six_digits() {
    let id = TournamentId::parse("202401").unwrap();
    assert_eq!((id.year(), id.month()), (2024, 1));
    assert_eq!(TournamentId::parse("202401"), TournamentId::new(2024, 1));
    assert_eq!(TournamentId::parse("000011"), TournamentId::new(0, 11));
    assert!(TournamentId::parse("202402").is_none());
    assert!(TournamentId::parse("20240").is_none());
    assert!(TournamentId::parse("2024011").is_none());
    assert!(TournamentId::parse("2024+1").is_none());
    assert!(TournamentId::parse("-12401").is_none());
    assert!(TournamentId::parse("2024o1").is_none());
    assert!(TournamentId::parse("").is_none());
}

#[test]
fn reading_a_written_identifier_gives_it_back() {
    for year in [0, 9, 99, 999, 2000, 2025, 9999] {
        for month in [1u32, 3, 5, 7, 9, 11] {
            let id = TournamentId::new(year, month).unwrap();
            assert_eq!(TournamentId::parse(&id.to_string()), Some(id));
        }
    }
}

#[test]
fn year_and_month_are_read_from_the_first_six_characters() {
    assert_eq!(parse_basho_year_month("202501"), Some((2025, 1)));
    assert_eq!(parse_basho_year_month("202513"), Some((2025, 13)));
    assert_eq!(parse_basho_year_month("20250199"), Some((2025, 1)));
    assert_eq!(parse_basho_year_month("-12305"), Some((-123, 5)));
    assert_eq!(parse_basho_year_month("+123+5"), Some((123, 5)));
    assert_eq!(parse_basho_year_month("20250"), None);
    assert_eq!(parse_basho_year_month("2025-1"), None);
    assert_eq!(parse_basho_year_month("abcdef"), None);
    assert_eq!(parse_basho_year_month(""), None);
}

#[test]
fn tournaments_are_named_after_their_month() {
    assert_eq!(get_basho_name(1), "Hatsu Basho");
    assert_eq!(get_basho_name(3), "Haru Basho");
    assert_eq!(get_basho_name(5), "Natsu Basho");
    assert_eq!(get_basho_name(7), "Nagoya Basho");
    assert_eq!(get_basho_name(9), "Aki Basho");
    assert_eq!(get_basho_name(11), "Kyushu Basho");
    assert_eq!(get_basho_name(2), "Unknown Basho");
    assert_eq!(get_basho_name(0), "Unknown Basho");
}

#[test]
fn identifier_reads_as_month_and_year() {
    assert_eq!(format_basho_date("202501"), "January 2025");
    assert_eq!(format_basho_date("202503"), "March 2025");
    assert_eq!(format_basho_date("202505"), "May 2025");
    assert_eq!(format_basho_date("202507"), "July 2025");
    assert_eq!(format_basho_date("202509"), "September 2025");
    assert_eq!(format_basho_date("199911"), "November 1999");
    assert_eq!(format_basho_date("202502"), "Unknown 2025");
    assert_eq!(format_basho_date("abcdef"), "Unknown 0");
    assert_eq!(format_basho_date("000701"), "January 7");
}

#[test]
fn text_of_another_length_is_no_identifier() {
    assert_eq!(format_basho_date("2025"), "2025");
    assert_eq!(format_basho_date(""), "");
    assert_eq!(format_basho_date("2025011"), "2025011");
    // Six characters in seven bytes.
    assert_eq!(format_basho_date("2025\u{e9}1"), "2025\u{e9}1");
    // Five characters in six bytes: the year is read, the month is not.
    assert_eq!(format_basho_date("2025\u{e9}"), "Unknown 2025");
}

#[test]
fn ranks_are_abbreviated() {
    assert_eq!(abbr_rank("Maegashira 7 East"), "M7");
    assert_eq!(abbr_rank("M7e"), "M7");
    assert_eq!(abbr_rank("Ozeki"), "O");
    assert_eq!(abbr_rank("Yokozuna 1 East"), "Y");
    assert_eq!(abbr_rank("Sekiwake 1 West"), "S");
    assert_eq!(abbr_rank("Komusubi 2 East"), "K");
    assert_eq!(abbr_rank("  Juryo 12 West "), "J12");
    assert_eq!(abbr_rank("maegashira"), "M");
    assert_eq!(abbr_rank("Makushita 15 East"), "M15");
    assert_eq!(abbr_rank("Jonidan 3 West"), "J3");
    assert_eq!(abbr_rank("banzuke-gai 4"), "B4");
    assert_eq!(abbr_rank("12 east"), "E12");
    assert_eq!(abbr_rank("12"), "12");
    assert_eq!(abbr_rank(""), "");
    assert_eq!(abbr_rank("   "), "");
    assert_eq!(abbr_rank("east YOKOZUNA"), "Y");
}

#[test]
fn abbreviation_goes_by_the_two_texts_it_is_given() {
    assert_eq!(abbr_rank_parts("X 3", "ozeki"), "O");
    assert_eq!(abbr_rank_parts("x 3", "x 3"), "X3");
    assert_eq!(abbr_rank_parts("m", ""), "M");
}

#[test]
fn first_letter_is_capitalized() {
    assert_eq!(capitalize("yorikiri"), "Yorikiri");
    assert_eq!(capitalize("N/A"), "N/A");
    assert_eq!(capitalize(""), "");
    assert_eq!(capitalize("\u{e9}cart"), "\u{c9}cart");
    assert_eq!(capitalize("o"), "O");
}

#[test]
fn debut_reads_as_year_and_month() {
    assert_eq!(format_debut("201801"), "2018-01");
    assert_eq!(format_debut("2018"), "2018");
    assert_eq!(format_debut(""), "");
    assert_eq!(format_debut("abcdef"), "abcd-ef");
    assert_eq!(format_debut("abc\u{e9}e"), "abc\u{e9}e");
}

#[test]
fn age_counts_whole_years() {
    assert_eq!(format_age("1999-05-22T00:00:00Z", Date::new(2025, 5, 21)), " (Age: 25)");
    assert_eq!(format_age("1999-05-22T00:00:00Z", Date::new(2025, 5, 22)), " (Age: 26)");
    assert_eq!(format_age("1999-05-22", Date::new(1990, 1, 1)), " (Age: 0)");
    assert_eq!(format_age("1999-05", Date::new(2025, 5, 22)), "");
    assert_eq!(format_age("not a date at all", Date::new(2025, 5, 22)), "");
}

#[test]
fn whole_years_between_two_days() {
    assert_eq!(Date::new(2030, 1, 1).years_since(Date::new(2025, 1, 1)), Some(5));
    assert_eq!(Date::new(2030, 1, 1).years_since(Date::new(2025, 1, 2)), Some(4));
    assert_eq!(Date::new(2025, 1, 1).years_since(Date::new(2025, 1, 1)), Some(0));
    assert_eq!(Date::new(2025, 1, 1).years_since(Date::new(2025, 1, 2)), None);
    assert_eq!(Date::new(2024, 12, 31).years_since(Date::new(2025, 1, 1)), None);
}
