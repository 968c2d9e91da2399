use ehm_save::data::colour::Colour;
use ehm_save::data::nation::Nation;
use ehm_save::data::name::Name;
use ehm_save::data::record::Record;
use ehm_save::data::section::{get_parser_guide, Section, SectionKind};
use ehm_save::data::table::Table;
use ehm_save::data::Data;
use ehm_save::init::{
    load_save, parse_file, parse_files, read_file_indexes, FileIndex, FormatError, Header,
};

fn text<const N: usize>(s: &str) -> [u8; N] {
    let mut field = [0u8; N];
    field[..s.len()].copy_from_slice(s.as_bytes());
    field
}

fn entry(name: &str, start: u32, size: u32) -> FileIndex {
    FileIndex { start_position: start, size, b_name: text(name) }
}

fn colour(id: i32, name: &str) -> Colour {
    Colour { id, b_name: text(name), red: id as u8, green: 2, blue: 3 }
}

fn colours(rows: &[Colour]) -> Table<Colour> {
    let mut t = Table::new();
    for r in rows {
        t.push(*r);
    }
    t
}

fn nation(id: i32, name: &str) -> Nation {
    let mut n = Nation::parse(&vec![0u8; 255], 0).unwrap();
    n.id = id;
    n.b_name = text(name);
    n
}

/// A file of three sections: two colours, three opaque bytes, one nation.
fn sample(first: u32) -> Data {
    let mut nations = Table::new();
    nations.push(nation(7, "Finland"));
    Data {
        header: Header { compressed: 4, header: -1, files: 3 },
        file_indexes: vec![
            entry("colour.dat", first, 0),
            entry("notes.bin", 0, 0),
            entry("nation.dat", 0, 0),
        ],
        sections: vec![
            Section::Colours(colours(&[colour(1, "Red"), colour(2, "Green")])),
            Section::Binary(vec![9, 8, 7]),
            Section::Nations(nations),
        ],
    }
}

fn file_of(header: Header, entries: &[FileIndex], body: &[u8]) -> Vec<u8> {
    let mut bytes = header._to_bytes();
    for e in entries {
        bytes.extend_from_slice(&e._to_bytes());
    }
    bytes.extend_from_slice(body);
    bytes
}

#[test]
fn the_names_of_the_sections_are_known() {
    assert_eq!(get_parser_guide("nation.dat"), Some(SectionKind::Nation));
    assert_eq!(get_parser_guide("staff.dat"), Some(SectionKind::Staff));
    assert_eq!(get_parser_guide("player.dat"), Some(SectionKind::Player));
    assert_eq!(get_parser_guide("first_names.dat"), Some(SectionKind::Forename));
    assert_eq!(get_parser_guide("second_names.dat"), Some(SectionKind::Surname));
    assert_eq!(get_parser_guide("nat_club.dat"), Some(SectionKind::NatClub));
    assert_eq!(get_parser_guide("club.dat"), Some(SectionKind::Club));
    assert_eq!(get_parser_guide("stadium.dat"), Some(SectionKind::Arena));
    assert_eq!(get_parser_guide("staff_comp.dat"), Some(SectionKind::StaffAward));
    assert_eq!(get_parser_guide("club_comp_history.dat"), Some(SectionKind::CompHistory));
    assert_eq!(get_parser_guide("stage_names.dat"), Some(SectionKind::StageName));
    assert_eq!(get_parser_guide("Nation.dat"), None);
    assert_eq!(get_parser_guide("nation.dat "), None);
    assert_eq!(get_parser_guide(""), None);
}

#[test]
fn the_header_is_twelve_bytes() {
    let h = Header { compressed: 1, header: 2, files: 3 };
    assert_eq!(h._to_bytes(), vec![1, 0, 0, 0, 2, 0, 0, 0, 3, 0, 0, 0]);
    assert_eq!(Header::parse(&h._to_bytes()), Some(h));
    assert_eq!(Header::parse(&[0; 11]), None);
}

#[test]
fn an_entry_of_the_table_is_268_bytes() {
    let e = entry("nation.dat", 0x0102_0304, 5);
    let bytes = e._to_bytes();
    assert_eq!(bytes.len(), 268);
    assert_eq!(&bytes[..8], &[4, 3, 2, 1, 5, 0, 0, 0]);
    assert_eq!(&bytes[8..18], b"nation.dat");
    assert!(bytes[18..].iter().all(|b| *b == 0));
    assert_eq!(FileIndex::parse(&bytes, 0), Some(e));
    assert_eq!(FileIndex::parse(&bytes[..267], 0), None);
    assert_eq!(FileIndex::parse(&bytes, 1), None);
    assert_eq!(e.name(), "nation.dat");
}

#[test]
fn a_save_file_is_written_section_after_section() {
    let mut d = sample(1000);
    let bytes = d.save_file().unwrap();
    assert_eq!(bytes.len(), 1000 + 116 + 3 + 255);
    assert_eq!(&bytes[..12], &[4, 0, 0, 0, 255, 255, 255, 255, 3, 0, 0, 0]);
    assert_eq!(d.file_indexes[0], entry("colour.dat", 1000, 116));
    assert_eq!(d.file_indexes[1], entry("notes.bin", 1116, 3));
    assert_eq!(d.file_indexes[2], entry("nation.dat", 1119, 255));
    assert_eq!(&bytes[12..280], &d.file_indexes[0]._to_bytes()[..]);
    assert_eq!(&bytes[280..548], &d.file_indexes[1]._to_bytes()[..]);
    assert_eq!(&bytes[548..816], &d.file_indexes[2]._to_bytes()[..]);
    assert!(bytes[816..1000].iter().all(|b| *b == 0));
    assert_eq!(&bytes[1000..1058], &colour(1, "Red").to_bytes()[..]);
    assert_eq!(&bytes[1058..1116], &colour(2, "Green").to_bytes()[..]);
    assert_eq!(&bytes[1116..1119], &[9, 8, 7]);
    assert_eq!(&bytes[1119..], &nation(7, "Finland").to_bytes()[..]);
}

#[test]
fn a_written_save_file_reads_back_the_same() {
    let mut written = sample(816);
    let bytes = written.save_file().unwrap();
    let read = load_save(&bytes).unwrap();
    assert_eq!(read.header, written.header);
    assert_eq!(read.file_indexes, written.file_indexes);
    assert_eq!(read.sections.len(), 3);
    match (&read.sections[0], &read.sections[1], &read.sections[2]) {
        (Section::Colours(c), Section::Binary(b), Section::Nations(n)) => {
            assert_eq!(c.rows, vec![colour(1, "Red"), colour(2, "Green")]);
            assert_eq!(b, &vec![9, 8, 7]);
            assert_eq!(n.rows, vec![nation(7, "Finland")]);
        }
        _ => panic!("the sections came back in other kinds"),
    }
    assert_eq!(read.nation(7).unwrap().name().unwrap(), "Finland");
    assert!(read.nation(8).is_none());
}

#[test]
fn a_read_save_file_is_written_back_byte_for_byte() {
    let bytes = sample(900).save_file().unwrap();
    let mut read = load_save(&bytes).unwrap();
    assert_eq!(read.save_file().unwrap(), bytes);
    let mut again = load_save(&bytes).unwrap();
    match &mut again.sections[0] {
        Section::Colours(c) => c.push(colour(3, "Blue")),
        _ => panic!("the first section holds no colours"),
    }
    let longer = again.save_file().unwrap();
    assert_eq!(longer.len(), bytes.len() + 58);
    assert_eq!(again.file_indexes[1].start_position, 900 + 174);
    assert_eq!(load_save(&longer).unwrap().save_file().unwrap(), longer);
}

#[test]
fn a_file_without_sections_is_its_header() {
    let mut d = Data {
        header: Header { compressed: 0, header: 0, files: 0 },
        file_indexes: vec![],
        sections: vec![],
    };
    let bytes = d.save_file().unwrap();
    assert_eq!(bytes, vec![0; 12]);
    let read = load_save(&bytes).unwrap();
    assert_eq!(read.sections.len(), 0);
    let negative = file_of(Header { compressed: 0, header: 0, files: -5 }, &[], &[1, 2, 3]);
    assert_eq!(load_save(&negative).unwrap().file_indexes.len(), 0);
}

#[test]
fn a_file_shorter_than_a_header_is_no_save_file() {
    assert_eq!(load_save(&[]).err(), Some(FormatError::Header));
    assert_eq!(load_save(&[0; 11]).err(), Some(FormatError::Header));
}

#[test]
fn a_table_of_sections_that_is_cut_short_is_a_fault() {
    let h = Header { compressed: 0, header: 0, files: 2 };
    let one = file_of(h, &[entry("a", 0, 0)], &[]);
    assert_eq!(load_save(&one).err(), Some(FormatError::Index { entry: 1 }));
    assert_eq!(load_save(&one[..279]).err(), Some(FormatError::Index { entry: 0 }));
    assert_eq!(load_save(&one[..12]).err(), Some(FormatError::Index { entry: 0 }));
    assert_eq!(
        read_file_indexes(&one, &h).err(),
        Some(FormatError::Index { entry: 1 })
    );
    assert_eq!(Data::initialise(&one).err(), Some(FormatError::Index { entry: 1 }));
}

#[test]
fn a_section_that_reaches_past_the_end_is_a_fault() {
    let h = Header { compressed: 0, header: 0, files: 2 };
    let bytes = file_of(h, &[entry("a", 548, 3), entry("b", 550, 2)], &[1, 2, 3]);
    assert_eq!(load_save(&bytes).err(), Some(FormatError::Range { section: 1 }));
    let far = file_of(h, &[entry("a", u32::MAX, u32::MAX), entry("b", 0, 0)], &[]);
    assert_eq!(load_save(&far).err(), Some(FormatError::Range { section: 0 }));
}

#[test]
fn bytes_left_over_in_a_known_section_are_a_fault() {
    let h = Header { compressed: 0, header: 0, files: 2 };
    let mut body = colour(1, "Red").to_bytes();
    body.push(0);
    let bytes = file_of(h, &[entry("other", 548, 1), entry("colour.dat", 548, 59)], &body);
    let e = load_save(&bytes).unwrap_err();
    assert_eq!(
        e,
        FormatError::Leftover { section: 1, name: text("colour.dat"), leftover: 1 }
    );
    assert_eq!(e.section_name(), Some("colour.dat".to_string()));
    assert_eq!(FormatError::Header.section_name(), None);
    let truncated = file_of(h, &[entry("other", 548, 1), entry("colour.dat", 548, 57)], &body);
    assert_eq!(
        load_save(&truncated).err(),
        Some(FormatError::Leftover { section: 1, name: text("colour.dat"), leftover: 57 })
    );
    let whole = file_of(h, &[entry("other", 548, 59), entry("colour.dat", 548, 58)], &body);
    assert!(load_save(&whole).is_ok());
}

#[test]
fn the_first_fault_is_the_one_that_is_told() {
    let h = Header { compressed: 0, header: 0, files: 2 };
    let body = [0u8; 10];
    let bytes = file_of(h, &[entry("colour.dat", 548, 10), entry("b", 9000, 1)], &body);
    assert_eq!(
        load_save(&bytes).err(),
        Some(FormatError::Leftover { section: 0, name: text("colour.dat"), leftover: 10 })
    );
    let other = file_of(h, &[entry("b", 9000, 1), entry("colour.dat", 548, 10)], &body);
    assert_eq!(load_save(&other).err(), Some(FormatError::Range { section: 0 }));
}

#[test]
fn a_section_of_an_unknown_name_is_kept_as_it_is() {
    let h = Header { compressed: 0, header: 0, files: 1 };
    let bytes = file_of(h, &[entry("colour.data", 280, 5)], &[1, 2, 3, 4, 5]);
    let d = load_save(&bytes).unwrap();
    match &d.sections[0] {
        Section::Binary(b) => assert_eq!(b, &vec![1, 2, 3, 4, 5]),
        _ => panic!("the section was decoded"),
    }
    assert_eq!(d.sections[0].which(), None);
    assert_eq!(d.sections[0].to_bytes(), vec![1, 2, 3, 4, 5]);
}

#[test]
fn sections_are_decoded_one_by_one() {
    let bytes = sample(816).save_file().unwrap();
    let e = entry("nation.dat", 816 + 116 + 3, 255);
    let s = parse_file(&bytes, &e, 2).unwrap();
    assert_eq!(s.which(), Some(SectionKind::Nation));
    assert_eq!(
        parse_file(&bytes, &entry("nation.dat", 816, 116), 4).err(),
        Some(FormatError::Leftover { section: 4, name: text("nation.dat"), leftover: 116 })
    );
    assert_eq!(
        parse_file(&bytes, &entry("nation.dat", 816 + 116 + 3, 256), 4).err(),
        Some(FormatError::Range { section: 4 })
    );
    let mut d = Data::initialise(&bytes).unwrap();
    assert_eq!(d.file_indexes.len(), 3);
    assert_eq!(d.sections.len(), 0);
    assert_eq!(parse_files(&bytes, &mut d), Ok(()));
    assert_eq!(d.sections.len(), 3);
}

#[test]
fn a_file_that_cannot_be_laid_out_is_not_written() {
    let mut early = sample(815);
    assert_eq!(early.save_file().err(), Some(FormatError::Layout));
    assert_eq!(early.file_indexes[0], entry("colour.dat", 815, 0));
    let mut late = sample(u32::MAX - 116 - 3 - 254);
    assert_eq!(late.save_file().err(), Some(FormatError::Layout));
    assert_eq!(late.file_indexes[1], entry("notes.bin", 0, 0));
}

#[test]
fn the_last_section_of_a_name_answers() {
    let mut one = Table::new();
    one.push(Name { b_name: text("Teemu"), id: 1, nation_id: 7, count: 1 });
    let mut two = Table::new();
    two.push(Name { b_name: text("Saku"), id: 2, nation_id: 7, count: 1 });
    let mut d = Data {
        header: Header { compressed: 0, header: 0, files: 3 },
        file_indexes: vec![
            entry("first_names.dat", 816, 0),
            entry("second_names.dat", 0, 0),
            entry("first_names.dat", 0, 0),
        ],
        sections: vec![
            Section::Forenames(one),
            Section::Surnames(Table::new()),
            Section::Forenames(two),
        ],
    };
    assert!(d.forename(1).is_none());
    assert_eq!(d.forename(2).unwrap().name().unwrap(), "Saku");
    assert!(d.surname(2).is_none());
    assert!(d.nations().is_none());
    let bytes = d.save_file().unwrap();
    assert_eq!(load_save(&bytes).unwrap().save_file().unwrap(), bytes);
}

#[test]
fn the_number_that_stands_for_no_reference_refers_to_nothing() {
    let mut nations = Table::new();
    nations.push(nation(-1, "Nowhere"));
    nations.push(nation(-2, "Anywhere"));
    let d = Data {
        header: Header { compressed: 0, header: 0, files: 1 },
        file_indexes: vec![entry("nation.dat", 280, 510)],
        sections: vec![Section::Nations(nations)],
    };
    assert!(d.nation(-1).is_none());
    assert_eq!(d.nation(-2).unwrap().name().unwrap(), "Anywhere");
    assert_eq!(d.nations().unwrap().get(-1).unwrap().name().unwrap(), "Nowhere");
}

#[test]
fn every_known_section_is_decoded_into_its_records() {
    let names: [(&str, SectionKind, usize); 25] = [
        ("continent.dat", SectionKind::Continent, 69),
        ("officials.dat", SectionKind::Official, 44),
        ("first_names.dat", SectionKind::Forename, 60),
        ("second_names.dat", SectionKind::Surname, 60),
        ("city.dat", SectionKind::City, 81),
        ("club.dat", SectionKind::Club, 733),
        ("nat_club.dat", SectionKind::NatClub, 733),
        ("staff_comp.dat", SectionKind::StaffAward, 109),
        ("club_comp.dat", SectionKind::Competition, 219),
        ("nation_comp.dat", SectionKind::NatCompetition, 219),
        ("club_comp_history.dat", SectionKind::CompHistory, 30),
        ("nation_comp_history.dat", SectionKind::NatCompHistory, 30),
        ("colour.dat", SectionKind::Colour, 58),
        ("nation.dat", SectionKind::Nation, 255),
        ("stadium.dat", SectionKind::Arena, 78),
        ("staff.dat", SectionKind::Staff, 116),
        ("nonplayer.dat", SectionKind::NonPlayer, 38),
        ("player.dat", SectionKind::Player, 73),
        ("staff_preferences.dat", SectionKind::StaffPreferences, 52),
        ("retired_numbers.dat", SectionKind::RetiredNumber, 110),
        ("states_provinces.dat", SectionKind::StateProvince, 117),
        ("injuries.dat", SectionKind::Injury, 217),
        ("currencies.dat", SectionKind::Currency, 119),
        ("drafts.dat", SectionKind::Draft, 61),
        ("stage_names.dat", SectionKind::StageName, 135),
    ];
    let first = 12 + 268 * 25 + 40;
    let mut entries = Vec::new();
    let mut body = Vec::new();
    for (i, (name, kind, width)) in names.iter().enumerate() {
        assert_eq!(get_parser_guide(name), Some(*kind));
        let records = i % 3 + 1;
        let start = first + body.len();
        for r in 0..records * width {
            body.push((r as u8).wrapping_mul(31).wrapping_add(i as u8));
        }
        entries.push(entry(name, start as u32, (records * width) as u32));
    }
    let mut file = (Header { compressed: 1, header: 2, files: 25 })._to_bytes();
    for e in &entries {
        file.extend_from_slice(&e._to_bytes());
    }
    file.extend_from_slice(&[0; 40]);
    file.extend_from_slice(&body);
    let mut read = load_save(&file).unwrap();
    assert_eq!(read.sections.len(), 25);
    for (i, (_, kind, width)) in names.iter().enumerate() {
        assert_eq!(read.sections[i].which(), Some(*kind));
        assert_eq!(read.sections[i].to_bytes().len(), (i % 3 + 1) * width);
    }
    assert_eq!(read.save_file().unwrap(), file);
    for (i, (_, _, width)) in names.iter().enumerate() {
        let mut cut = file.clone();
        let at = 12 + 268 * i + 4;
        let size = ((i % 3 + 1) * width - 1) as u32;
        cut[at..at + 4].copy_from_slice(&size.to_le_bytes());
        let mut name = [0u8; 260];
        name[..names[i].0.len()].copy_from_slice(names[i].0.as_bytes());
        assert_eq!(
            load_save(&cut).err(),
            Some(FormatError::Leftover { section: i, name, leftover: width - 1 }),
        );
    }
}
