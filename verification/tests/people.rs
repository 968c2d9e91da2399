use ehm_save::data::city::City;
use ehm_save::data::club::Club;
use ehm_save::data::date::SIDate;
use ehm_save::data::name::Name;
use ehm_save::data::nation::Nation;
use ehm_save::data::player::Player;
use ehm_save::data::record::Record;
use ehm_save::data::section::{Section, SectionKind};
use ehm_save::data::staff::{contains_id, is_plain, Affiliations, IdFilter, Staff};
use ehm_save::data::state_province::StateProvince;
use ehm_save::data::table::Table;
use ehm_save::data::{Data, ReferenceError};
use ehm_save::globals::{AttributeBand, AttributeChart};
use ehm_save::init::{bytes_to_string, load_save, FileIndex, Header};

fn text<const N: usize>(s: &[u8]) -> [u8; N] {
    let mut field = [0u8; N];
    field[..s.len()].copy_from_slice(s);
    field
}

fn entry(name: &str) -> FileIndex {
    FileIndex { start_position: 3000, size: 0, b_name: text(name.as_bytes()) }
}

fn person(id: i32) -> Staff {
    let mut s = Staff::parse(&vec![0u8; 116], 0).unwrap();
    s.id = id;
    s.nation_id = 7;
    s.second_nation_id = -1;
    s.player_data_id = -1;
    s.club_contracted_id = -1;
    s.club_playing_id = -1;
    s.birth_town_id = -1;
    s.forename_id = -1;
    s.surname_id = -1;
    s
}

fn date(year: i16, day: i16) -> SIDate {
    SIDate { day, year, b_is_leap_year: 0 }
}

fn table<T: Record>(rows: Vec<T>) -> Table<T> {
    let mut t = Table::new();
    for r in rows {
        t.push(r);
    }
    t
}

fn nation(id: i32, name: &[u8], short: &[u8]) -> Nation {
    let mut n = Nation::parse(&vec![0u8; 255], 0).unwrap();
    n.id = id;
    n.b_name = text(name);
    n.b_three_letter_name = text(short);
    n
}

fn club(id: i32, name: &[u8], short: &[u8], nation_id: i32, division_id: i32) -> Club {
    let mut c = Club::parse(&vec![0u8; 733], 0).unwrap();
    c.id = id;
    c.b_name = text(name);
    c.b_short_name = text(short);
    c.nation_id = nation_id;
    c.division_id = division_id;
    c
}

fn world(staff: Vec<Staff>) -> Data {
    let mut town = City::parse(&vec![0u8; 81], 0).unwrap();
    town.id = 3;
    town.state_id = 4;
    town.nation_id = 7;
    town.b_name = text(b"Oulu");
    let mut lost = town;
    lost.id = 5;
    lost.state_id = -1;
    lost.nation_id = 99;
    lost.b_name = text(&[b'J', 228, b'r', b'v', b'i', 128]);
    let mut state = StateProvince::parse(&vec![0u8; 117], 0).unwrap();
    state.id = 4;
    state.b_abbreviation = text(b"OL");
    Data {
        header: Header { compressed: 0, header: 0, files: 7 },
        file_indexes: vec![
            entry("staff.dat"),
            entry("first_names.dat"),
            entry("second_names.dat"),
            entry("nation.dat"),
            entry("club.dat"),
            entry("city.dat"),
            entry("states_provinces.dat"),
        ],
        sections: vec![
            Section::Staff(table(staff)),
            Section::Forenames(table(vec![
                Name { b_name: text(b"Teemu"), id: 1, nation_id: 7, count: 1 },
                Name { b_name: text(&[b'J', 160, b'r', 128]), id: 2, nation_id: 7, count: 1 },
                Name { b_name: text(b"Jean-Luc"), id: 3, nation_id: 7, count: 1 },
            ])),
            Section::Surnames(table(vec![
                Name {
                    b_name: text(&[b'S', b'e', b'l', 228, b'n', b'n', b'e']),
                    id: 1,
                    nation_id: 7,
                    count: 1,
                },
                Name { b_name: text(b"O'Neill"), id: 2, nation_id: 7, count: 1 },
            ])),
            Section::Nations(table(vec![
                nation(7, b"Finland", b"FIN"),
                nation(8, b"Sweden", b"SWE"),
            ])),
            Section::Clubs(table(vec![
                club(20, &[b'K', 228, b'r', b'p', 228, b't'], b"Oulu", 7, 300),
                club(21, b"Mighty Ducks", b"Anaheim", 50, 400),
                club(22, b"Moose", b"Manitoba", 51, 401),
            ])),
            Section::Cities(table(vec![town, lost])),
            Section::StatesProvinces(table(vec![state])),
        ],
    }
}

#[test]
fn any_nation_matches_every_person() {
    for (first, second, declared) in [(7, -1, 0), (7, 8, 1), (-1, -1, 0), (-2, -2, 2), (0, 9, 2)] {
        let mut s = person(1);
        s.nation_id = first;
        s.second_nation_id = second;
        s.declared_nation = declared;
        assert!(s.has_nationality(-2));
        assert!(s.check_national_team(-2, true));
        assert!(s.check_country_choice(-2, true));
    }
}

#[test]
fn no_nation_never_matches_the_second_nationality() {
    let mut s = person(1);
    s.nation_id = 7;
    s.second_nation_id = -1;
    assert!(!s.has_nationality(-1));
    s.declared_nation = 2;
    assert!(!s.has_nationality(-1));
    s.nation_id = -1;
    assert!(s.has_nationality(-1));
}

#[test]
fn a_person_is_of_the_first_and_of_the_second_nation() {
    let mut s = person(1);
    s.nation_id = 7;
    s.second_nation_id = 8;
    assert!(s.has_nationality(7));
    assert!(s.has_nationality(8));
    assert!(!s.has_nationality(9));
    s.second_nation_id = -1;
    assert!(!s.has_nationality(8));
}

#[test]
fn the_declared_nation_is_the_first_or_the_second() {
    let mut s = person(1);
    s.nation_id = 7;
    s.second_nation_id = 8;
    assert_eq!(s.declared_nation_id(), None);
    s.declared_nation = 1;
    assert_eq!(s.declared_nation_id(), Some(7));
    s.declared_nation = 2;
    assert_eq!(s.declared_nation_id(), Some(8));
    s.declared_nation = -5;
    assert_eq!(s.declared_nation_id(), Some(8));
}

#[test]
fn the_national_team_is_open_to_those_who_have_not_chosen_another() {
    let mut s = person(1);
    s.nation_id = 7;
    s.second_nation_id = 8;
    assert!(s.check_national_team(7, true));
    assert!(s.check_national_team(8, true));
    s.declared_nation = 1;
    assert!(s.check_national_team(7, true));
    assert!(!s.check_national_team(8, true));
    assert!(s.check_national_team(8, false));
    assert!(s.check_national_team(-1, true));
    s.declared_nation = 2;
    assert!(!s.check_national_team(7, true));
    assert!(s.check_national_team(8, true));
}

#[test]
fn a_country_can_be_chosen_by_those_with_two_who_have_not_chosen() {
    let mut s = person(1);
    s.nation_id = 7;
    s.second_nation_id = 8;
    assert!(s.check_country_choice(7, true));
    assert!(s.check_country_choice(8, true));
    s.declared_nation = 1;
    assert!(!s.check_country_choice(7, true));
    assert!(s.check_country_choice(7, false));
    assert!(s.check_country_choice(-1, true));
    s.declared_nation = 0;
    s.second_nation_id = -1;
    assert!(!s.check_country_choice(7, true));
    s.second_nation_id = 0;
    assert!(s.check_country_choice(7, true));
}

#[test]
fn the_year_of_birth_has_a_lower_bound() {
    let mut s = person(1);
    s.date_of_birth = date(1980, 100);
    assert!(s.has_given_age(1980));
    assert!(s.has_given_age(1979));
    assert!(!s.has_given_age(1981));
}

#[test]
fn north_america_and_its_league_can_be_left_out() {
    let mut s = person(1);
    let d = world(vec![s]);
    let na = [50, 51];
    let nhl = [400];
    assert!(s.check_na_exclusion(&d, true, true, &na, &nhl));
    s.club_playing_id = 20;
    assert!(s.check_na_exclusion(&d, true, true, &na, &nhl));
    s.club_playing_id = 21;
    assert!(s.check_na_exclusion(&d, false, false, &na, &nhl));
    assert!(!s.check_na_exclusion(&d, true, false, &na, &nhl));
    assert!(!s.check_na_exclusion(&d, false, true, &na, &nhl));
    assert!(!s.check_na_exclusion(&d, true, true, &na, &nhl));
    s.club_playing_id = 22;
    assert!(!s.check_na_exclusion(&d, true, false, &na, &nhl));
    assert!(s.check_na_exclusion(&d, false, true, &na, &nhl));
    assert!(s.check_na_exclusion(&d, true, true, &[], &[]));
    s.club_playing_id = 999;
    assert!(s.check_na_exclusion(&d, true, true, &na, &nhl));
    assert!(contains_id(&na, 51));
    assert!(!contains_id(&na, 52));
    assert!(!contains_id(&[], 0));
}

fn ids(wanted: &[i32], unwanted: &[i32]) -> IdFilter {
    IdFilter { wanted: wanted.to_vec(), unwanted: unwanted.to_vec() }
}

fn anything() -> Affiliations {
    Affiliations {
        clubs_contracted: ids(&[], &[]),
        clubs_playing: ids(&[], &[]),
        comps_contracted: ids(&[], &[]),
        comps_playing: ids(&[], &[]),
        nations_contracted: ids(&[], &[]),
        nations_playing: ids(&[], &[]),
    }
}

#[test]
fn a_filter_of_numbers_wants_some_and_bars_others() {
    assert!(ids(&[], &[]).passes(5));
    assert!(ids(&[5, 6], &[]).passes(5));
    assert!(!ids(&[5, 6], &[]).passes(7));
    assert!(!ids(&[], &[5]).passes(5));
    assert!(ids(&[], &[5]).passes(6));
    assert!(!ids(&[5], &[5]).passes(5));
    assert!(ids(&[-1], &[]).passes(-1));
}

#[test]
fn the_clubs_of_a_person_are_asked_separately() {
    let mut s = person(1);
    s.club_contracted_id = 20;
    s.club_playing_id = 21;
    let d = world(vec![s]);
    assert!(s.check_affiliations(&d, &anything()));
    let mut q = anything();
    q.clubs_contracted = ids(&[20], &[]);
    assert!(s.check_affiliations(&d, &q));
    q.clubs_playing = ids(&[20], &[]);
    assert!(!s.check_affiliations(&d, &q));
    let mut q = anything();
    q.nations_contracted = ids(&[7], &[50]);
    assert!(s.check_affiliations(&d, &q));
    q.nations_playing = ids(&[], &[50]);
    assert!(!s.check_affiliations(&d, &q));
    let mut q = anything();
    q.comps_playing = ids(&[400], &[]);
    assert!(s.check_affiliations(&d, &q));
    q.comps_contracted = ids(&[400], &[]);
    assert!(!s.check_affiliations(&d, &q));
    q.comps_contracted = ids(&[], &[300]);
    assert!(!s.check_affiliations(&d, &q));
    s.club_contracted_id = -1;
    s.club_playing_id = 99;
    let mut q = anything();
    assert!(s.check_affiliations(&d, &q));
    q.clubs_contracted = ids(&[-1], &[]);
    q.nations_contracted = ids(&[-1], &[]);
    q.comps_playing = ids(&[-1], &[]);
    q.clubs_playing = ids(&[99], &[]);
    assert!(s.check_affiliations(&d, &q));
    q.nations_playing = ids(&[], &[-1]);
    assert!(!s.check_affiliations(&d, &q));
}

#[test]
fn a_person_passes_a_query_by_passing_every_filter() {
    let mut s = person(1);
    s.nation_id = 7;
    s.second_nation_id = 8;
    s.date_of_birth = date(1980, 100);
    s.club_playing_id = 21;
    let d = world(vec![s]);
    let na = [50];
    let nhl = [400];
    assert!(s.check_player_filters(&d, 7, true, true, 1980, false, false, &na, &nhl));
    assert!(s.check_player_filters(&d, -2, true, true, 1900, false, false, &na, &nhl));
    assert!(!s.check_player_filters(&d, 9, false, false, 1900, false, false, &na, &nhl));
    assert!(!s.check_player_filters(&d, 7, true, true, 1981, false, false, &na, &nhl));
    assert!(!s.check_player_filters(&d, 7, true, true, 1980, true, false, &na, &nhl));
    assert!(!s.check_player_filters(&d, 7, true, true, 1980, false, true, &na, &nhl));
    s.declared_nation = 2;
    assert!(!s.check_player_filters(&d, 7, true, false, 1980, false, false, &na, &nhl));
    assert!(!s.check_player_filters(&d, 8, false, true, 1980, false, false, &na, &nhl));
    assert!(s.check_player_filters(&d, 8, true, false, 1980, false, false, &na, &nhl));
}

#[test]
fn names_are_looked_up_and_put_together() {
    let mut s = person(1);
    s.forename_id = 1;
    s.surname_id = 1;
    let d = world(vec![s]);
    assert_eq!(s.forename(&d), Ok("Teemu".to_string()));
    assert_eq!(s.surname(&d), Ok("Sel\u{e4}nne".to_string()));
    assert_eq!(s.full_name(&d), Ok("Teemu Sel\u{e4}nne".to_string()));
}

#[test]
fn a_missing_name_is_the_one_error() {
    let mut s = person(1);
    s.forename_id = 9;
    s.surname_id = 1;
    let d = world(vec![s]);
    let no_forename = ReferenceError { kind: SectionKind::Forename, id: 9 };
    assert_eq!(s.forename(&d), Err(no_forename));
    assert_eq!(s.full_name(&d), Err(no_forename));
    assert_eq!(s._has_no_special_characters(&d), Err(no_forename));
    s.forename_id = 1;
    s.surname_id = -1;
    let no_surname = ReferenceError { kind: SectionKind::Surname, id: -1 };
    assert_eq!(s.surname(&d), Err(no_surname));
    assert_eq!(s.full_name(&d), Err(no_surname));
    s.forename_id = 8;
    s.surname_id = 8;
    assert_eq!(s.full_name(&d), Err(ReferenceError { kind: SectionKind::Forename, id: 8 }));
}

#[test]
fn a_name_that_cannot_be_read_is_shown_for_diagnosis() {
    let mut s = person(1);
    s.forename_id = 2;
    s.surname_id = 2;
    let d = world(vec![s]);
    assert_eq!(s.forename(&d), Ok("J\u{a0}r\u{80}".to_string()));
    assert_eq!(s.full_name(&d), Ok("J\u{a0}r\u{80} O'Neill".to_string()));
    assert!(d.forename(2).unwrap().name().is_err());
}

#[test]
fn special_characters_are_told_by_the_regular_expression() {
    let mut s = person(1);
    s.forename_id = 1;
    s.surname_id = 1;
    let d = world(vec![s]);
    assert_eq!(s._has_no_special_characters(&d), Ok(true));
    s.surname_id = 2;
    assert_eq!(s._has_no_special_characters(&d), Ok(false));
    s.forename_id = 3;
    s.surname_id = 1;
    assert_eq!(s._has_no_special_characters(&d), Ok(false));
    assert!(is_plain(Some(true)));
    assert!(!is_plain(Some(false)));
    assert!(!is_plain(None));
}

#[test]
fn the_names_of_nations_and_clubs_are_empty_where_there_is_none() {
    let mut s = person(1);
    s.nation_id = 7;
    s.second_nation_id = 8;
    s.club_contracted_id = 20;
    s.club_playing_id = 21;
    let d = world(vec![s]);
    assert_eq!(s.nation_name(&d), "Finland");
    assert_eq!(s.second_nation_name(&d), "Sweden");
    assert_eq!(s._nation_three_letter_name(&d), "FIN");
    assert_eq!(s._second_nation_three_letter_name(&d), "SWE");
    assert_eq!(s.club_contracted_name(&d), "K\u{e4}rp\u{e4}t");
    assert_eq!(s._club_contracted_short_name(&d), "Oulu");
    assert_eq!(s.club_playing_name(&d), "Mighty Ducks");
    assert_eq!(s._club_playing_short_name(&d), "Anaheim");
    assert_eq!(s.club_playing(&d).unwrap().division_id, 400);
    s.nation_id = 99;
    s.second_nation_id = -1;
    s.club_contracted_id = -1;
    s.club_playing_id = 98;
    assert_eq!(s.nation_name(&d), "");
    assert_eq!(s.second_nation_name(&d), "");
    assert_eq!(s._nation_three_letter_name(&d), "");
    assert_eq!(s._second_nation_three_letter_name(&d), "");
    assert_eq!(s.club_contracted_name(&d), "");
    assert_eq!(s._club_contracted_short_name(&d), "");
    assert_eq!(s.club_playing_name(&d), "");
    assert_eq!(s._club_playing_short_name(&d), "");
    assert!(s.club_playing(&d).is_none());
    assert!(s.player_data(&d).is_none());
}

#[test]
fn the_birthplace_names_town_state_and_nation() {
    let mut s = person(1);
    let d = world(vec![s]);
    assert_eq!(s._birthplace(&d), "");
    s.birth_town_id = 3;
    assert_eq!(s._birthplace(&d), "Oulu, OL, FIN");
    s.birth_town_id = 5;
    assert_eq!(s._birthplace(&d), "J\u{e4}rvi\u{80}");
    s.birth_town_id = 6;
    assert_eq!(s._birthplace(&d), "");
}

#[test]
fn the_age_lasts_from_the_day_after_the_birthday_to_the_next_birthday() {
    let mut s = person(1);
    s.date_of_birth = date(1981, 99);
    s.age = 25;
    assert_eq!(s.dates_with_this_age(), Some((date(2006, 100), date(2007, 99))));
    s.date_of_birth = date(1981, 10);
    s.age = 22;
    assert_eq!(s.dates_with_this_age(), Some((date(2003, 11), date(2004, 10))));
    s.date_of_birth = date(1981, 364);
    s.age = 25;
    assert_eq!(s.dates_with_this_age(), Some((date(2007, 0), date(2007, 364))));
    s.age = 0;
    assert_eq!(s.dates_with_this_age(), Some((date(1982, 0), date(1982, 364))));
}

#[test]
fn the_birthday_moves_with_the_leap_day() {
    let mut s = person(1);
    s.date_of_birth = date(1980, 100);
    s.age = 26;
    assert_eq!(s.dates_with_this_age(), Some((date(2006, 100), date(2007, 99))));
    s.date_of_birth = date(1981, 99);
    s.age = 23;
    assert_eq!(s.dates_with_this_age(), Some((date(2004, 101), date(2005, 99))));
    s.date_of_birth = date(1980, 100);
    s.age = 24;
    assert_eq!(s.dates_with_this_age(), Some((date(2004, 101), date(2005, 99))));
    s.date_of_birth = date(1980, 58);
    s.age = 26;
    assert_eq!(s.dates_with_this_age(), Some((date(2006, 59), date(2007, 58))));
    s.date_of_birth = date(1980, 59);
    s.age = 26;
    assert_eq!(s.dates_with_this_age(), Some((date(2006, 59), date(2007, 58))));
    s.date_of_birth = date(1981, 58);
    s.age = 23;
    assert_eq!(s.dates_with_this_age(), Some((date(2004, 59), date(2005, 58))));
    s.date_of_birth = date(1981, 40);
    s.age = 22;
    assert_eq!(s.dates_with_this_age(), Some((date(2003, 41), date(2004, 40))));
    s.date_of_birth = date(1981, 70);
    s.age = 22;
    assert_eq!(s.dates_with_this_age(), Some((date(2003, 71), date(2004, 71))));
}

#[test]
fn an_age_in_a_year_that_cannot_be_stored_has_no_days() {
    let mut s = person(1);
    s.date_of_birth = date(32000, 10);
    s.age = 800;
    assert_eq!(s.dates_with_this_age(), None);
    s.age = 767;
    assert_eq!(s.dates_with_this_age(), None);
    s.age = 766;
    assert!(s.dates_with_this_age().is_some());
    s.date_of_birth = date(-32000, 10);
    s.age = -800;
    assert_eq!(s.dates_with_this_age(), None);
}

#[test]
fn the_date_of_the_save_lies_in_the_window_of_every_person() {
    let mut a = person(1);
    a.date_of_birth = date(1981, 99);
    a.age = 25;
    let mut b = person(2);
    b.date_of_birth = date(1970, 299);
    b.age = 35;
    let mut c = person(3);
    c.date_of_birth = date(1990, 149);
    c.age = 16;
    let mut unborn = person(4);
    unborn.date_of_birth = date(32000, 10);
    unborn.age = 800;
    let mut old = person(1);
    old.date_of_birth = date(1950, 0);
    old.age = 90;
    let d = world(vec![old, a, b, c, unborn]);
    assert_eq!(d.calculate_ingame_date(), (date(2006, 150), date(2006, 299)));
    let nobody = world(vec![]);
    assert_eq!(
        nobody.calculate_ingame_date(),
        (date(i16::MIN, i16::MIN), date(i16::MAX, i16::MAX))
    );
}

#[test]
fn the_positions_of_a_player_are_ranked() {
    let mut p = Player::parse(&vec![0u8; 73], 0).unwrap();
    assert_eq!(p.position_vec(), Vec::<u8>::new());
    assert_eq!(p.position_string(), "");
    p.left_wing = 20;
    assert_eq!(p.position_vec(), vec![3]);
    assert_eq!(p.position_string(), "LW");
    p.center = 18;
    p.right_wing = 20;
    p.left_defence = 15;
    p.right_defence = 16;
    assert_eq!(p.position_vec(), vec![3, 5, 4, 2]);
    assert_eq!(p.position_string(), "LW/RW/C/RD");
    p.goaltender = 16;
    p.left_defence = 16;
    assert_eq!(p.position_vec(), vec![3, 5, 4, 0, 1, 2]);
    assert_eq!(p.position_string(), "LW/RW/C/G/LD/RD");
    p.goaltender = 127;
    assert_eq!(p.position_string(), "G/LW/RW/C/LD/RD");
    assert!(!p.is_goalie());
}

#[test]
fn characters_are_text_up_to_the_first_nul() {
    assert_eq!(bytes_to_string(&['a', 'b', '\0', 'c']), "ab");
    assert_eq!(bytes_to_string(&['\u{e4}', '\u{2122}']), "\u{e4}\u{2122}");
    assert_eq!(bytes_to_string(&['\0']), "");
    assert_eq!(bytes_to_string(&[]), "");
}

#[test]
fn a_player_of_a_read_file_has_a_nation_and_a_rating() {
    let mut finland = Nation::parse(&vec![0u8; 255], 0).unwrap();
    finland.id = 7;
    finland.b_name = text(b"Finland");
    let mut s = person(1);
    s.nation_id = 7;
    s.player_data_id = 5;
    s.determination = 14;
    s.pressure = 12;
    s.professionalism = 11;
    s.sportsmanship = 10;
    s.temperament = 9;
    let mut bytes = vec![13u8; 73];
    bytes[0..4].copy_from_slice(&5i32.to_le_bytes());
    bytes[4..6].copy_from_slice(&140i16.to_le_bytes());
    let mut goalie = Player::parse(&bytes, 0).unwrap();
    goalie.goaltender = 20;
    let mut written = Data {
        header: Header { compressed: 0, header: 0, files: 3 },
        file_indexes: vec![entry("nation.dat"), entry("staff.dat"), entry("player.dat")],
        sections: vec![
            Section::Nations(table(vec![finland])),
            Section::Staff(table(vec![s])),
            Section::Players(table(vec![goalie])),
        ],
    };
    let file = written.save_file().unwrap();
    let read = load_save(&file).unwrap();
    let who = *read.person(1).unwrap();
    assert_eq!(who.nation_name(&read), "Finland");
    let what = who.player_data(&read).unwrap();
    assert_eq!(what, goalie);
    let mut chart = AttributeChart::new();
    chart.set_bands(140, vec![AttributeBand { real: 13, low: 13, high: 13 }]);
    let bounds = read.calculate_rating_boundaries(&chart).unwrap();
    assert_eq!(bounds.best_gk, bounds.worst_gk);
    assert_eq!(bounds.best_ca, bounds.worst_ca);
    let rating = who.relative_gk_rating(&read, &chart, &bounds).unwrap();
    assert_eq!(rating.num, 2 * (57 + 36));
    assert_eq!(rating.den, 2 * 114);
    let shown = rating.num as f64 / rating.den as f64;
    assert!((0.0..=1.0).contains(&shown));
    let mut skater = goalie;
    skater.goaltender = 1;
    skater.center = 17;
    skater.versatility = 13;
    let mut again = written.clone();
    again.sections[2] = Section::Players(table(vec![skater]));
    let file = again.save_file().unwrap();
    let read = load_save(&file).unwrap();
    let who = *read.person(1).unwrap();
    let bounds = read.calculate_rating_boundaries(&chart).unwrap();
    let rating = who.relative_c_rating(&read, &chart, &bounds).unwrap();
    assert_eq!(rating.num, 2 * (57 + 36) * (38 + 28));
    assert_eq!(rating.den, 2 * 114 * 76);
    let shown = rating.num as f64 / rating.den as f64;
    assert!((0.0..=1.0).contains(&shown));
}
