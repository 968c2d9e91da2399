use ehm_save::chars::decimal;
use ehm_save::data::city::City;
use ehm_save::data::club::Club;
use ehm_save::data::date::SIDate;
use ehm_save::data::name::Name;
use ehm_save::data::nation::Nation;
use ehm_save::data::player::{attribute_by_name, Attribute, Player};
use ehm_save::data::record::Record;
use ehm_save::data::section::{Section, SectionKind};
use ehm_save::data::staff::Staff;
use ehm_save::data::table::Table;
use ehm_save::data::{Data, ReferenceError};
use ehm_save::globals::{AttributeBand, AttributeChart};
use ehm_save::init::debug::{
    _Player as MadeUp, _check_players, _give_attribute, attribute_tried, make_up, name_of_tried,
    HEADING,
};
use ehm_save::init::{FileIndex, Header};
use ehm_save::rating::{Fraction, RatingBounds};
use ehm_save::research::db::{_Player, attribute_at, who_is_judged_by, Judged};
use ehm_save::research::{
    _AttributeData, add_attr, add_to_research, get_staff_hash, key_of_person, sorted_attr_data,
};
use ehm_save::views::player::{cell, rating_in, Cell, Position};

fn text<const N: usize>(s: &str) -> [u8; N] {
    let mut field = [0u8; N];
    field[..s.len()].copy_from_slice(s.as_bytes());
    field
}

fn entry(name: &str) -> FileIndex {
    FileIndex { start_position: 4000, size: 0, b_name: text(name) }
}

fn table<T: Record>(rows: Vec<T>) -> Table<T> {
    let mut t = Table::new();
    for r in rows {
        t.push(r);
    }
    t
}

fn person(id: i32, forename: i32, surname: i32, player: i32) -> Staff {
    let mut s = Staff::parse(&vec![0u8; 116], 0).unwrap();
    s.id = id;
    s.nation_id = 7;
    s.second_nation_id = -1;
    s.player_data_id = player;
    s.club_contracted_id = 20;
    s.club_playing_id = 20;
    s.birth_town_id = 3;
    s.forename_id = forename;
    s.surname_id = surname;
    s.age = 20 + id as i16;
    s.date_of_birth = SIDate { day: 40, year: 1980, b_is_leap_year: 0 };
    s
}

fn player(id: i32, ca: i16, all: i8) -> Player {
    let mut bytes = vec![all as u8; 73];
    bytes[0..4].copy_from_slice(&id.to_le_bytes());
    bytes[4..6].copy_from_slice(&ca.to_le_bytes());
    let mut p = Player::parse(&bytes, 0).unwrap();
    p.goaltender = 1;
    p.left_defence = 1;
    p.right_defence = 1;
    p.left_wing = 1;
    p.center = 20;
    p.right_wing = 1;
    p
}

fn world(staff: Vec<Staff>, players: Vec<Player>) -> Data {
    let mut finland = Nation::parse(&vec![0u8; 255], 0).unwrap();
    finland.id = 7;
    finland.b_name = text("Finland");
    finland.b_three_letter_name = text("FIN");
    let mut club = Club::parse(&vec![0u8; 733], 0).unwrap();
    club.id = 20;
    club.b_name = text("Ilves Tampere");
    club.b_short_name = text("Ilves");
    let mut town = City::parse(&vec![0u8; 81], 0).unwrap();
    town.id = 3;
    town.state_id = -1;
    town.nation_id = 7;
    town.b_name = text("Tampere");
    Data {
        header: Header { compressed: 0, header: 0, files: 7 },
        file_indexes: vec![
            entry("staff.dat"),
            entry("player.dat"),
            entry("first_names.dat"),
            entry("second_names.dat"),
            entry("nation.dat"),
            entry("club.dat"),
            entry("city.dat"),
        ],
        sections: vec![
            Section::Staff(table(staff)),
            Section::Players(table(players)),
            Section::Forenames(table(vec![
                Name { b_name: text("Raimo"), id: 1, nation_id: 7, count: 1 },
                Name { b_name: text("Jari"), id: 2, nation_id: 7, count: 1 },
                Name { b_name: text("Jean-Luc"), id: 3, nation_id: 7, count: 1 },
            ])),
            Section::Surnames(table(vec![
                Name { b_name: text("Helminen"), id: 1, nation_id: 7, count: 1 },
                Name { b_name: text("Kurri"), id: 2, nation_id: 7, count: 1 },
            ])),
            Section::Nations(table(vec![finland])),
            Section::Clubs(table(vec![club])),
            Section::Cities(table(vec![town])),
        ],
    }
}

fn beside(save: Player, db: Player) -> _Player {
    _Player {
        forename: "Raimo".to_string(),
        surname: "Helminen".to_string(),
        age: 42,
        birthplace: "Tampere, FIN".to_string(),
        nation: "FIN".to_string(),
        second_nation: String::new(),
        club: "Ilves".to_string(),
        current_ability: save.current_ability,
        save,
        db,
    }
}

#[test]
fn numbers_are_written_in_decimal_digits() {
    for n in [0i64, 7, 10, 42, 99, 100, 1900, -1, -10, -32768, i64::MAX, i64::MIN] {
        assert_eq!(decimal(n), n.to_string());
    }
}

#[test]
fn dates_are_written_for_the_screen_and_for_diagnosis() {
    let d = SIDate { day: 59, year: 2004, b_is_leap_year: 1 };
    assert_eq!(d.to_string(), "(2004, 59, true, 1)");
    assert_eq!(d.to_day_month_year(), "29.2.2004");
    let e = SIDate { day: -3, year: -5, b_is_leap_year: 0 };
    assert_eq!(e.to_string(), "(-5, -3, false, 0)");
    let f = SIDate { day: 364, year: 2006, b_is_leap_year: 0 };
    assert_eq!(f.to_day_month_year(), "31.12.2006");
}

#[test]
fn an_entry_of_the_table_of_sections_is_written_for_diagnosis() {
    let e = FileIndex { start_position: 816, size: 58, b_name: text("colour.dat") };
    let row = e._to_string(3);
    assert!(row.starts_with("3;816;58;colour.dat\0"));
    assert_eq!(row.chars().count(), 9 + 260);
}

#[test]
fn pairs_are_counted_by_ability_and_values() {
    let mut data = _AttributeData::new();
    assert_eq!(data.count_of(120, 10, -5), 0);
    data._add_attr(120, 10, -5);
    data._add_attr(120, 10, -5);
    data._add_attr(120, 10, -4);
    data._add_attr(121, 10, -5);
    data._add_attr(-3, -128, 127);
    assert_eq!(data.count_of(120, 10, -5), 2);
    assert_eq!(data.count_of(120, 10, -4), 1);
    assert_eq!(data.count_of(121, 10, -5), 1);
    assert_eq!(data.count_of(-3, -128, 127), 1);
    assert_eq!(data.count_of(120, -5, 10), 0);
    assert_eq!(data.keys.len(), 4);
    let key = _AttributeData::key(120, 10, -5);
    data.add(key, u64::MAX);
    assert_eq!(data.amount_of(key), u64::MAX);
    data.add(key, 1);
    assert_eq!(data.count_of(120, 10, -5), u64::MAX);
}

#[test]
fn the_counts_of_a_database_are_added_to_those_of_all() {
    let mut main = _AttributeData::new();
    main._add_attr(120, 10, -5);
    main._add_attr(120, 11, -2);
    let mut db = _AttributeData::new();
    db._add_attr(120, 10, -5);
    db._add_attr(120, 10, -5);
    db._add_attr(100, 1, 1);
    add_attr(&mut main, &db);
    assert_eq!(main.count_of(120, 10, -5), 3);
    assert_eq!(main.count_of(120, 11, -2), 1);
    assert_eq!(main.count_of(100, 1, 1), 1);
    assert_eq!(db.count_of(120, 10, -5), 2);
    add_attr(&mut main, &_AttributeData::new());
    assert_eq!(main.count_of(120, 10, -5), 3);
}

#[test]
fn the_findings_are_listed_in_order() {
    let mut data = _AttributeData::new();
    assert_eq!(sorted_attr_data(&data), "");
    data._add_attr(120, 10, 7);
    data._add_attr(120, 10, -5);
    data._add_attr(120, 10, -5);
    data._add_attr(120, 9, 3);
    data._add_attr(-2, 20, 0);
    data._add_attr(120, 10, 6);
    data._add_attr(121, -1, -1);
    assert_eq!(
        sorted_attr_data(&data),
        "CA: -2\n\tDB Attribute: 20\n\t\tx1: 0\n\
         CA: 120\n\tDB Attribute: 9\n\t\tx1: 3\n\
         \tDB Attribute: 10\n\t\tx2: -5\n\t\tx1: 6\n\t\tx1: 7\n\
         CA: 121\n\tDB Attribute: -1\n\t\tx1: -1"
    );
    let key = _AttributeData::key(120, 10, 7);
    data.add(key, u64::MAX);
    assert!(sorted_attr_data(&data)
        .contains("\tDB Attribute: 10\n\t\tx18446744073709551615: 7\n\t\tx2: -5"));
}

#[test]
fn attributes_are_judged_by_position() {
    assert_eq!(attribute_at(0), Attribute::Anticipation);
    assert_eq!(attribute_at(3), Attribute::OffThePuck);
    assert_eq!(attribute_at(22), Attribute::Wristshot);
    assert_eq!(who_is_judged_by(Attribute::Glove), Judged::Goalies);
    assert_eq!(who_is_judged_by(Attribute::Faceoffs), Judged::Skaters);
    assert_eq!(who_is_judged_by(Attribute::Fighting), Judged::Everyone);
    assert_eq!(who_is_judged_by(Attribute::Decisions), Judged::Everyone);
    let mut db = player(1, 120, 10);
    let both = beside(player(1, 120, -7), db);
    assert!(both._is_skater());
    assert!(!both._is_goalie());
    assert!(both.is_counted(Attribute::Faceoffs));
    assert!(both.is_counted(Attribute::Balance));
    assert!(!both.is_counted(Attribute::Glove));
    db.center = 19;
    db.goaltender = 20;
    db.balance_raw = 21;
    db.passing_raw = 0;
    let goalie = beside(player(1, 120, -7), db);
    assert!(goalie._is_goalie());
    assert!(!goalie._is_skater());
    assert!(goalie.is_counted(Attribute::Glove));
    assert!(!goalie.is_counted(Attribute::Faceoffs));
    assert!(!goalie.is_counted(Attribute::Balance));
    assert!(!goalie.is_counted(Attribute::Passing));
    assert!(goalie.is_counted(Attribute::Fighting));
    assert_eq!(goalie._attribute(Attribute::Glove), "-7;10");
    assert_eq!(goalie._attribute(Attribute::Faceoffs), ";");
}

#[test]
fn a_player_is_a_row_of_the_table_of_the_research() {
    let mut db = player(1, 120, 10);
    db.glove_raw = 12;
    let mut save = player(1, 130, -7);
    save.anticipation_raw = 5;
    let row = beside(save, db)._create_csv_row();
    assert_eq!(
        row,
        "130;Raimo;Helminen;42;Tampere, FIN;FIN;;Ilves;5;10;-7;10;-7;10;-7;10;;;-7;10;-7;10;;;-7;10;;\
         ;-7;10;-7;10;-7;10;-7;10;-7;10;;;-7;10;-7;10;;;;;-7;10;-7;10;-7;10"
    );
}

#[test]
fn the_attributes_that_count_are_taken_into_the_research() {
    let mut db = player(1, 120, 10);
    db.balance_raw = 11;
    db.fighting_raw = 30;
    let mut save = player(1, 130, -7);
    save.balance_raw = -6;
    let mut data = _AttributeData::new();
    let both = beside(save, db);
    both._add_to_attr_data(&mut data);
    assert_eq!(data.count_of(130, 10, -7), 15);
    assert_eq!(data.count_of(130, 11, -6), 1);
    assert_eq!(data.count_of(120, 10, -7), 0);
    assert_eq!(data.keys.len(), 2);
    both._add_to_attr_data(&mut data);
    both._add_attr(&mut data, 1, 2);
    assert_eq!(data.count_of(130, 10, -7), 30);
    assert_eq!(data.count_of(130, 1, 2), 1);
}

#[test]
fn players_are_known_by_names_places_and_club() {
    let a = person(1, 1, 1, 10);
    let b = person(2, 2, 2, 11);
    let twin = person(3, 1, 1, 12);
    let coach = person(4, 2, 1, -1);
    let players = vec![player(10, 100, 5), player(11, 100, 5), player(12, 100, 5)];
    let d = world(vec![a, b, coach], players.clone());
    let key = key_of_person(&a, &d).unwrap();
    assert_eq!(key.forename, "Raimo");
    assert_eq!(key.surname, "Helminen");
    assert_eq!(key.birthplace, "Tampere, FIN");
    assert_eq!(key.nation, "Finland");
    assert_eq!(key.second_nation, "");
    assert_eq!(key.club_contracted, "Ilves Tampere");
    assert!(key.same(&key_of_person(&twin, &d).unwrap()));
    assert!(!key.same(&key_of_person(&b, &d).unwrap()));
    let list = get_staff_hash(&d).unwrap();
    assert_eq!(list.len(), 2);
    assert_eq!(list[0].1, a);
    assert_eq!(list[1].1, b);
    let d = world(vec![a, b, twin], players.clone());
    let list = get_staff_hash(&d).unwrap();
    assert_eq!(list.len(), 1);
    assert_eq!(list[0].1, b);
    let third = person(5, 1, 1, 10);
    let d = world(vec![a, b, twin, third], players);
    let list = get_staff_hash(&d).unwrap();
    assert_eq!(list.len(), 2);
    assert_eq!(list[1].1, third);
    let nameless = person(6, 9, 1, 10);
    let d = world(vec![a, nameless], vec![player(10, 100, 5)]);
    assert_eq!(
        get_staff_hash(&d).err(),
        Some(ReferenceError { kind: SectionKind::Forename, id: 9 })
    );
}

#[test]
fn a_player_of_the_database_is_put_beside_the_one_of_the_save() {
    let a = person(1, 1, 1, 10);
    let b = person(2, 2, 2, 11);
    let db = world(vec![a, b], vec![player(10, 100, 10), player(11, 100, 12)]);
    let mut older = a;
    older.age = 30;
    older.id = 77;
    let save = world(vec![older], vec![player(10, 140, -9)]);
    let mut left = get_staff_hash(&save).unwrap();
    let key = key_of_person(&a, &db).unwrap();
    let both = a._merge_players(&db, &save, &key, &mut left).unwrap().unwrap();
    assert!(left.is_empty());
    assert_eq!(both.forename, "Raimo");
    assert_eq!(both.surname, "Helminen");
    assert_eq!(both.age, 30);
    assert_eq!(both.birthplace, "Tampere, FIN");
    assert_eq!(both.nation, "FIN");
    assert_eq!(both.second_nation, "");
    assert_eq!(both.club, "Ilves");
    assert_eq!(both.current_ability, 140);
    assert_eq!(both.save, player(10, 140, -9));
    assert_eq!(both.db, player(10, 100, 10));
    assert!(a._merge_players(&db, &save, &key, &mut left).unwrap().is_none());
    let mut left = get_staff_hash(&save).unwrap();
    let other = key_of_person(&b, &db).unwrap();
    assert!(b._merge_players(&db, &save, &other, &mut left).unwrap().is_none());
    assert_eq!(left.len(), 1);
    let found = add_to_research(&save, &db).unwrap();
    assert_eq!(found.count_of(140, 10, -9), 17);
    assert_eq!(found.count_of(100, 10, -9), 0);
    assert_eq!(found.keys.len(), 1);
    let nobody = add_to_research(&db, &save).unwrap();
    assert_eq!(nobody.count_of(100, -9, 10), 0);
    assert_eq!(nobody.keys.len(), 0);
}

#[test]
fn an_attribute_is_given_and_the_next_value_is_on() {
    let mut p = player(1, 100, 0);
    let mut value: i16 = -60;
    assert!(_give_attribute(&mut p, &mut value, "Off The Puck"));
    assert_eq!(p.movement_raw, -60);
    assert_eq!(value, -59);
    assert!(_give_attribute(&mut p, &mut value, "Wristshot"));
    assert_eq!(p.wristshot_raw, -59);
    assert_eq!(value, -58);
    let before = p;
    assert!(!_give_attribute(&mut p, &mut value, "Glove"));
    assert!(!_give_attribute(&mut p, &mut value, "Decisions"));
    assert!(!_give_attribute(&mut p, &mut value, "Speed"));
    assert_eq!(p, before);
    assert_eq!(value, -58);
    p.set_raw(Attribute::Glove, 7);
    assert_eq!(p.glove_raw, 7);
    assert_eq!(name_of_tried(0), "Balance");
    assert_eq!(name_of_tried(8), "Off The Puck");
    assert_eq!(name_of_tried(14), "Wristshot");
}

#[test]
fn a_skater_is_made_up_value_by_value() {
    let mut p = player(1, 100, 5);
    let mut ca: i16 = 7;
    let mut value: i16 = -60;
    assert_eq!(make_up(&mut p, &mut ca, &mut value), 15);
    assert_eq!((ca, value), (7, -45));
    assert_eq!((p.current_ability, p.potential_ability), (7, 7));
    assert_eq!(p.balance_raw, -60);
    assert_eq!(p.movement_raw, -52);
    assert_eq!(p.wristshot_raw, -46);
    assert_eq!(p.glove_raw, 5);
    let mut q = player(2, 100, 5);
    value = 115;
    assert_eq!(make_up(&mut q, &mut ca, &mut value), 8);
    assert_eq!((ca, value), (8, -60));
    assert_eq!(q.current_ability, 7);
    assert_eq!(q.balance_raw, 115);
    assert_eq!(q.hitting_raw, 122);
    assert_eq!(q.movement_raw, 5);
    let mut r = player(3, 100, 5);
    value = 123;
    assert_eq!(make_up(&mut r, &mut ca, &mut value), 0);
    assert_eq!((ca, value), (9, -60));
    assert_eq!(r.current_ability, 8);
    assert_eq!(r.balance_raw, 5);
    value = 108;
    assert_eq!(make_up(&mut r, &mut ca, &mut value), 15);
    assert_eq!((ca, value), (9, 123));
    assert_eq!(r.wristshot_raw, 122);
    for i in 0..15 {
        assert_eq!(attribute_by_name(name_of_tried(i)), Some(attribute_tried(i)));
    }
}

#[test]
fn made_up_players_are_rows_of_a_table() {
    let a = person(1, 1, 1, 10);
    let d = world(vec![a], vec![player(10, 100, 5)]);
    let p = MadeUp::_new(&a, 3, -60, "Balance", &d).unwrap();
    assert_eq!(p._to_csv_row(), "3;-60;Balance;Raimo;Helminen;21;Tampere, FIN;FIN;;Ilves;Ilves");
    assert_eq!(
        MadeUp::_new(&person(2, 1, 9, 10), 3, -60, "Balance", &d).err(),
        Some(ReferenceError { kind: SectionKind::Surname, id: 9 })
    );
}

#[test]
fn skaters_are_given_made_up_attributes_in_turn() {
    let mut goalie = player(12, 100, 5);
    goalie.goaltender = 20;
    let staff = vec![
        person(1, 1, 1, 10),
        person(2, 3, 2, 11),
        person(3, 2, 2, 12),
        person(4, 2, 1, -1),
        person(5, 2, 2, 11),
    ];
    let mut d = world(staff, vec![player(10, 100, 5), player(11, 100, 5), goalie]);
    let before = d.clone();
    let log = _check_players(&mut d).unwrap();
    assert_eq!(log.len(), 1 + 30);
    assert_eq!(log[0], HEADING);
    assert_eq!(log[1], "1;-60;Balance;Raimo;Helminen;21;Tampere, FIN;FIN;;Ilves;Ilves");
    assert_eq!(log[15], "1;-46;Wristshot;Raimo;Helminen;21;Tampere, FIN;FIN;;Ilves;Ilves");
    assert_eq!(log[16], "1;-45;Balance;Jari;Kurri;25;Tampere, FIN;FIN;;Ilves;Ilves");
    let first = d.player(10).unwrap();
    assert_eq!(first.current_ability, 1);
    assert_eq!(first.potential_ability, 1);
    assert_eq!(first.balance_raw, -60);
    assert_eq!(first.anticipation_raw, -59);
    assert_eq!(first.wristshot_raw, -46);
    assert_eq!(first.glove_raw, 5);
    let second = d.player(11).unwrap();
    assert_eq!(second.balance_raw, -45);
    assert_eq!(second.wristshot_raw, -31);
    assert_eq!(d.player(12), before.player(12));
    assert_eq!(d.staff().unwrap().rows, before.staff().unwrap().rows);
    assert_eq!(d.file_indexes, before.file_indexes);
}

#[test]
fn the_values_start_over_with_the_next_ability() {
    let staff: Vec<Staff> = (0..14).map(|i| person(i, 1, 1, 100 + i)).collect();
    let players: Vec<Player> = (0..14).map(|i| player(100 + i, 100, 5)).collect();
    let mut d = world(staff, players);
    let log = _check_players(&mut d).unwrap();
    assert_eq!(log.len(), 1 + 183 + 15);
    assert!(log[183].starts_with("1;122;Creativity;"));
    assert!(log[184].starts_with("2;-60;Balance;"));
    let turning = d.player(112).unwrap();
    assert_eq!(turning.current_ability, 1);
    assert_eq!(turning.balance_raw, 120);
    assert_eq!(turning.vision_raw, 122);
    assert_eq!(turning.checking_raw, 5);
    let next = d.player(113).unwrap();
    assert_eq!(next.current_ability, 2);
    assert_eq!(next.balance_raw, -60);
}

#[test]
fn a_column_shows_what_its_heading_names() {
    let mut s = person(1, 1, 1, 10);
    s.determination = 14;
    let mut p = player(10, 120, 10);
    p.pace = 17;
    p.leadership = 3;
    p.faceoffs_raw = 11;
    let d = world(vec![s], vec![p]);
    let mut chart = AttributeChart::new();
    let bands = (1..=20).map(|v| AttributeBand { real: v + 1, low: v, high: v }).collect();
    chart.set_bands(120, bands);
    let mut bounds = RatingBounds::new();
    bounds.add_ability(100);
    bounds.add_ability(200);
    bounds.add_skater(5000, 5000, 5000);
    bounds.add_skater(9000, 9000, 9000);
    let shown = |header: &str| cell(header, 4, &s, &p, &d, &chart, &bounds);
    assert_eq!(shown("Random"), Cell::Number(4));
    assert_eq!(shown("Staff ID"), Cell::Number(1));
    assert_eq!(shown("Name"), Cell::Text("Raimo Helminen".to_string()));
    assert_eq!(shown("Nation"), Cell::Text("Finland".to_string()));
    assert_eq!(shown("Second Nation"), Cell::Text(String::new()));
    assert_eq!(shown("Club Contracted"), Cell::Text("Ilves Tampere".to_string()));
    assert_eq!(shown("Club Playing"), Cell::Text("Ilves Tampere".to_string()));
    assert_eq!(shown("Birthday"), Cell::Number(334 + 79 * 365 + 19 + 40));
    assert_eq!(shown("Position"), Cell::Text("C".to_string()));
    assert_eq!(shown("Determination"), Cell::Number(14));
    assert_eq!(shown("Current Ability"), Cell::Number(120));
    assert_eq!(shown("Speed"), Cell::Number(17));
    assert_eq!(shown("Influence"), Cell::Number(3));
    assert_eq!(shown("C"), Cell::Number(20));
    assert_eq!(shown("GK"), Cell::Number(1));
    assert_eq!(shown("Faceoffs"), Cell::Number(12));
    assert_eq!(shown("Off The Puck"), Cell::Number(11));
    assert_eq!(shown("Leadership"), Cell::Missing);
    assert_eq!(shown("GK Rating"), Cell::Rating(Fraction { num: -1, den: 1 }));
    assert_eq!(shown("C Rating"), Cell::Rating(s.c_rating(&p, &chart, &bounds).unwrap()));
    assert_eq!(shown("LD Rating"), Cell::Rating(s.ld_rating(&p, &chart, &bounds).unwrap()));
    assert_eq!(
        rating_in(&s, &p, &chart, &bounds, Position::RW),
        s.rw_rating(&p, &chart, &bounds)
    );
    let early = Staff { date_of_birth: SIDate { day: 0, year: 1899, b_is_leap_year: 0 }, ..s };
    assert_eq!(cell("Birthday", 0, &early, &p, &d, &chart, &bounds), Cell::Missing);
    let nameless = Staff { forename_id: 9, ..s };
    assert_eq!(cell("Name", 0, &nameless, &p, &d, &chart, &bounds), Cell::Missing);
    let mut odd = p;
    odd.faceoffs_raw = 50;
    assert_eq!(cell("Faceoffs", 0, &s, &odd, &d, &chart, &bounds), Cell::Missing);
    assert_eq!(cell("C Rating", 0, &s, &odd, &d, &chart, &bounds), Cell::Missing);
}

#[test]
fn a_player_is_a_row_with_a_column_for_every_heading() {
    let s = person(1, 1, 1, 10);
    let mut p = player(10, 120, 10);
    p.left_wing = 17;
    let d = world(vec![s], vec![p]);
    let chart = AttributeChart::new();
    let bounds = RatingBounds::new();
    let headers = vec!["Staff ID".to_string(), "Name".to_string(), "Age".to_string()];
    let row = s.create_player_view(&p, &d, &chart, &bounds, &headers, 0).unwrap();
    assert_eq!(row.forename, "Raimo");
    assert_eq!(row.surname, "Helminen");
    assert_eq!(row.positions, vec![4, 3]);
    assert_eq!(
        row.columns,
        vec![Cell::Number(1), Cell::Text("Raimo Helminen".to_string()), Cell::Missing]
    );
    let mut more = row.clone();
    more.add_column(&d, &chart, &bounds, 9, "Random", &s, &p);
    assert_eq!(more.columns.len(), 4);
    assert_eq!(more.columns[3], Cell::Number(9));
    let nameless = Staff { surname_id: 9, ..s };
    assert_eq!(
        nameless.create_player_view(&p, &d, &chart, &bounds, &headers, 0).err(),
        Some(ReferenceError { kind: SectionKind::Surname, id: 9 })
    );
}
