use ehm_save::data::club::Club;
use ehm_save::data::colour::Colour;
use ehm_save::data::date::SIDate;
use ehm_save::data::injury::Injury;
use ehm_save::data::name::Name;
use ehm_save::data::nation::Nation;
use ehm_save::data::non_player::NonPlayer;
use ehm_save::data::official::Official;
use ehm_save::data::player::Player;
use ehm_save::data::record::Record;
use ehm_save::data::staff::Staff;
use ehm_save::data::table::Table;
use ehm_save::to_bytes::{
    put_bytes, put_i16, put_i32, put_i32s, put_i64, put_i8, put_u16, put_u32, put_u64, put_u8,
    Reader, _NumToBytes, _slice_to_bytes,
};

fn text<const N: usize>(s: &str) -> [u8; N] {
    let mut field = [0u8; N];
    field[..s.len()].copy_from_slice(s.as_bytes());
    field
}

fn pattern(len: usize, seed: u8) -> Vec<u8> {
    (0..len).map(|i| (i as u8).wrapping_mul(37).wrapping_add(seed)).collect()
}

#[test]
fn scalars_are_laid_out_low_byte_first() {
    let mut out = Vec::new();
    put_u8(&mut out, 0xab);
    put_i8(&mut out, -2);
    put_u16(&mut out, 0x1234);
    put_i16(&mut out, -2);
    put_u32(&mut out, 0x1234_5678);
    put_i32(&mut out, -2);
    put_u64(&mut out, 0x0102_0304_0506_0708);
    put_i64(&mut out, -2);
    let mut expected = vec![0xab, 0xfe, 0x34, 0x12, 0xfe, 0xff, 0x78, 0x56, 0x34, 0x12];
    expected.extend_from_slice(&[0xfe, 0xff, 0xff, 0xff]);
    expected.extend_from_slice(&[8, 7, 6, 5, 4, 3, 2, 1]);
    expected.extend_from_slice(&[0xfe, 0xff, 0xff, 0xff, 0xff, 0xff, 0xff, 0xff]);
    assert_eq!(out, expected);
}

#[test]
fn the_layout_is_that_of_the_machine() {
    for x in [0i32, 1, -1, 255, 256, 65_536, i32::MAX, i32::MIN, 0x1234_5678, -0x1234_5678] {
        let mut out = Vec::new();
        put_i32(&mut out, x);
        assert_eq!(out, x.to_le_bytes().to_vec());
    }
    for x in [0i16, 1, -1, 255, 256, i16::MAX, i16::MIN] {
        let mut out = Vec::new();
        put_i16(&mut out, x);
        assert_eq!(out, x.to_le_bytes().to_vec());
    }
    for x in [0i8, 1, -1, i8::MAX, i8::MIN] {
        let mut out = Vec::new();
        put_i8(&mut out, x);
        assert_eq!(out, x.to_le_bytes().to_vec());
    }
    for x in [0u64, 1, u64::MAX, 0x8000_0000_0000_0000, 0xffff_ffff, 0x1_0000_0000] {
        let mut out = Vec::new();
        put_u64(&mut out, x);
        assert_eq!(out, x.to_le_bytes().to_vec());
    }
    for x in [0i64, -1, i64::MAX, i64::MIN, 0x1_0000_0000] {
        let mut out = Vec::new();
        put_i64(&mut out, x);
        assert_eq!(out, x.to_le_bytes().to_vec());
    }
}

#[test]
fn the_reader_reads_what_was_put() {
    let mut out = vec![9u8, 9];
    put_u8(&mut out, 200);
    put_i8(&mut out, -100);
    put_u16(&mut out, 65_000);
    put_i16(&mut out, -30_000);
    put_u32(&mut out, 4_000_000_000);
    put_i32(&mut out, -2_000_000_000);
    put_u64(&mut out, 18_000_000_000_000_000_000);
    put_bytes(&mut out, &[1, 2, 3]);
    put_i32s(&mut out, &[7, -7]);
    let mut r = Reader::new(&out, 2);
    assert_eq!(r.read_u8(), 200);
    assert_eq!(r.read_i8(), -100);
    assert_eq!(r.read_u16(), 65_000);
    assert_eq!(r.read_i16(), -30_000);
    assert_eq!(r.read_u32(), 4_000_000_000);
    assert_eq!(r.read_i32(), -2_000_000_000);
    assert_eq!(r.read_u64(), 18_000_000_000_000_000_000);
    assert_eq!(r.read_bytes::<3>(), [1, 2, 3]);
    assert_eq!(r.read_i32s::<2>(), [7, -7]);
    assert_eq!(r.pos, out.len());
    assert_eq!(r.start, 2);
}

#[test]
fn a_run_of_numbers_is_laid_out_one_after_the_other() {
    assert_eq!(_slice_to_bytes(&[1i32, -1]), vec![1, 0, 0, 0, 255, 255, 255, 255]);
    assert_eq!(_slice_to_bytes(&[0x0102u16, 3]), vec![2, 1, 3, 0]);
    assert_eq!(_slice_to_bytes(&[7u8, 8, 9]), vec![7, 8, 9]);
    assert_eq!(_slice_to_bytes::<i64>(&[]), Vec::<u8>::new());
    assert_eq!(_NumToBytes::to_le_bytes(-2i16), vec![0xfe, 0xff]);
    assert_eq!(_NumToBytes::to_le_bytes(5u32), vec![5, 0, 0, 0]);
    assert_eq!(_NumToBytes::to_le_bytes(-1i8), vec![255]);
    assert_eq!(_NumToBytes::to_le_bytes(1u64), vec![1, 0, 0, 0, 0, 0, 0, 0]);
}

#[test]
fn every_record_is_as_wide_as_its_type_says() {
    assert_eq!(Colour::width(), 58);
    assert_eq!(Name::width(), 60);
    assert_eq!(Player::width(), 73);
    assert_eq!(Staff::width(), 116);
    assert_eq!(Nation::width(), 255);
    assert_eq!(Club::width(), 733);
    assert_eq!(NonPlayer::width(), 38);
    assert_eq!(Official::width(), 44);
    assert_eq!(Injury::width(), 217);
}

#[test]
fn a_colour_is_laid_out_field_by_field() {
    let c = Colour { id: 0x0102_0304, b_name: text("Red"), red: 255, green: 1, blue: 2 };
    let bytes = c.to_bytes();
    assert_eq!(bytes.len(), 58);
    assert_eq!(&bytes[..4], &[4, 3, 2, 1]);
    assert_eq!(&bytes[4..7], b"Red");
    assert!(bytes[7..55].iter().all(|b| *b == 0));
    assert_eq!(&bytes[55..], &[255, 1, 2]);
    assert_eq!(Colour::parse(&bytes, 0), Some(c));
    assert_eq!(c.name().unwrap(), "Red");
    assert_eq!(c.id(), 0x0102_0304);
}

#[test]
fn records_of_every_width_come_back_from_their_bytes() {
    let bytes = pattern(Player::width(), 3);
    let p = Player::parse(&bytes, 0).unwrap();
    assert_eq!(p.to_bytes(), bytes);
    let bytes = pattern(Staff::width(), 5);
    let s = Staff::parse(&bytes, 0).unwrap();
    assert_eq!(s.to_bytes(), bytes);
    let bytes = pattern(Nation::width(), 7);
    let n = Nation::parse(&bytes, 0).unwrap();
    assert_eq!(n.to_bytes(), bytes);
    let bytes = pattern(Club::width(), 11);
    let c = Club::parse(&bytes, 0).unwrap();
    assert_eq!(c.to_bytes(), bytes);
    let bytes = pattern(Official::width(), 13);
    let o = Official::parse(&bytes, 0).unwrap();
    assert_eq!(o.to_bytes(), bytes);
    let bytes = pattern(Injury::width(), 17);
    let i = Injury::parse(&bytes, 0).unwrap();
    assert_eq!(i.to_bytes(), bytes);
}

#[test]
fn the_fields_of_a_person_stand_where_the_layout_puts_them() {
    let mut bytes = vec![0u8; 116];
    bytes[0..4].copy_from_slice(&77i32.to_le_bytes());
    bytes[12..16].copy_from_slice(&7i32.to_le_bytes());
    bytes[16..20].copy_from_slice(&(-1i32).to_le_bytes());
    bytes[20..24].copy_from_slice(&5i32.to_le_bytes());
    bytes[60..62].copy_from_slice(&100i16.to_le_bytes());
    bytes[62..64].copy_from_slice(&1980i16.to_le_bytes());
    bytes[64] = 1;
    bytes[90..92].copy_from_slice(&26i16.to_le_bytes());
    bytes[96] = 15;
    bytes[108] = 2;
    bytes[112..116].copy_from_slice(&1234i32.to_le_bytes());
    let s = Staff::parse(&bytes, 0).unwrap();
    assert_eq!(s.id, 77);
    assert_eq!(s.nation_id, 7);
    assert_eq!(s.second_nation_id, -1);
    assert_eq!(s.player_data_id, 5);
    assert_eq!(s.date_of_birth, SIDate { day: 100, year: 1980, b_is_leap_year: 1 });
    assert_eq!(s.age, 26);
    assert_eq!(s.adaptability, 15);
    assert_eq!(s.declared_nation, 2);
    assert_eq!(s.estimated_wage_weekly, 1234);
}

#[test]
fn the_fields_of_a_player_stand_where_the_layout_puts_them() {
    let mut bytes = vec![0u8; 73];
    bytes[0..4].copy_from_slice(&5i32.to_le_bytes());
    bytes[4..6].copy_from_slice(&120i16.to_le_bytes());
    bytes[6..8].copy_from_slice(&150i16.to_le_bytes());
    bytes[16] = 11;
    bytes[46] = 20;
    bytes[72] = 0xff;
    let p = Player::parse(&bytes, 0).unwrap();
    assert_eq!(p.id, 5);
    assert_eq!(p.current_ability, 120);
    assert_eq!(p.potential_ability, 150);
    assert_eq!(p.acceleration, 11);
    assert_eq!(p.goaltender, 20);
    assert_eq!(p.junior_preference, -1);
    assert!(p.is_goalie());
}

#[test]
fn a_record_is_read_from_where_it_starts() {
    let c = Colour { id: 9, b_name: text("Blue"), red: 0, green: 0, blue: 255 };
    let mut bytes = vec![1, 2, 3];
    bytes.extend_from_slice(&c.to_bytes());
    assert_eq!(Colour::parse(&bytes, 3), Some(c));
    assert_eq!(Colour::parse(&bytes, 4), None);
    assert_eq!(Colour::parse(&bytes, 1000), None);
    assert_eq!(Colour::parse(&bytes[..57], 0), None);
    assert_eq!(Colour::parse(&[], 0), None);
    assert_eq!(Colour::parse(&bytes, usize::MAX), None);
}

#[test]
fn the_bits_of_a_floating_point_number_are_carried_through() {
    let mut n = Nation::parse(&vec![0u8; 255], 0).unwrap();
    n.iihf_ranking_score_bits = 1234.5f64.to_bits();
    let bytes = n.to_bytes();
    assert_eq!(&bytes[..8], &1234.5f64.to_le_bytes());
    let back = Nation::parse(&bytes, 0).unwrap();
    assert_eq!(f64::from_bits(back.iihf_ranking_score_bits), 1234.5);
}

#[test]
fn a_section_decodes_to_its_records_in_order() {
    let a = Colour { id: 1, b_name: text("Red"), red: 255, green: 0, blue: 0 };
    let b = Colour { id: 2, b_name: text("Green"), red: 0, green: 255, blue: 0 };
    let mut bytes = a.to_bytes();
    bytes.extend_from_slice(&b.to_bytes());
    let table = Table::<Colour>::parse(&bytes).unwrap();
    assert_eq!(table.rows, vec![a, b]);
    assert_eq!(table.len(), 2);
    assert_eq!(table.get(2), Some(&b));
    assert_eq!(table.get(1), Some(&a));
    assert_eq!(table.get(3), None);
    assert_eq!(*table.row(0), a);
    assert_eq!(table.to_bytes(), bytes);
    assert_eq!(Table::<Colour>::parse(&[]).unwrap().len(), 0);
}

#[test]
fn a_section_with_bytes_left_over_does_not_decode() {
    let a = Colour { id: 1, b_name: text("Red"), red: 255, green: 0, blue: 0 };
    let mut bytes = a.to_bytes();
    bytes.push(0);
    assert_eq!(Table::<Colour>::parse(&bytes).err(), Some(1));
    bytes.extend_from_slice(&[0; 56]);
    assert_eq!(Table::<Colour>::parse(&bytes).err(), Some(57));
    bytes.push(0);
    assert!(Table::<Colour>::parse(&bytes).is_ok());
    assert_eq!(Table::<Colour>::parse(&bytes[..57]).err(), Some(57));
    assert_eq!(Table::<Colour>::parse(&bytes[..1]).err(), Some(1));
}

#[test]
fn a_number_refers_to_the_last_record_that_has_it() {
    let a = Colour { id: 1, b_name: text("Red"), red: 255, green: 0, blue: 0 };
    let b = Colour { id: 1, b_name: text("Crimson"), red: 200, green: 0, blue: 0 };
    let c = Colour { id: 2, b_name: text("Green"), red: 0, green: 255, blue: 0 };
    let mut table = Table::new();
    table.push(a);
    table.push(c);
    table.push(b);
    assert_eq!(table.get(1), Some(&b));
    assert!(!table.is_current(0));
    assert!(table.is_current(1));
    assert!(table.is_current(2));
    let mut bytes = a.to_bytes();
    bytes.extend_from_slice(&c.to_bytes());
    bytes.extend_from_slice(&b.to_bytes());
    assert_eq!(table.to_bytes(), bytes);
}

#[test]
fn the_number_of_an_injury_is_widened() {
    let mut i = Injury::parse(&vec![0u8; 217], 0).unwrap();
    i.id = -3;
    i.b_is_recurring = 2;
    assert_eq!(i.id(), -3);
    assert!(i.is_recurring());
    i.b_is_recurring = 0;
    assert!(!i.is_recurring());
}
