use ehm_save::data::player::{attribute_by_name, Attribute, Player};
use ehm_save::data::record::Record;
use ehm_save::data::section::Section;
use ehm_save::data::staff::Staff;
use ehm_save::data::table::Table;
use ehm_save::data::{convert_attribute, Data};
use ehm_save::globals::{AttributeBand, AttributeChart};
use ehm_save::init::{FileIndex, Header};
use ehm_save::rating::{restrict_minimum, stretch, Fraction, RatingBounds};

fn text<const N: usize>(s: &str) -> [u8; N] {
    let mut field = [0u8; N];
    field[..s.len()].copy_from_slice(s.as_bytes());
    field
}

/// A chart that shows every value from 1 to 20 as it is, for the given
/// current abilities.
fn plain_chart(abilities: &[i16]) -> AttributeChart {
    let mut chart = AttributeChart::new();
    for ca in abilities {
        let bands = (1..=20).map(|v| AttributeBand { real: v, low: v, high: v }).collect();
        chart.set_bands(*ca, bands);
    }
    chart
}

fn player(id: i32, ca: i16, all: i8) -> Player {
    let mut bytes = vec![all as u8; 73];
    bytes[0..4].copy_from_slice(&id.to_le_bytes());
    bytes[4..6].copy_from_slice(&ca.to_le_bytes());
    Player::parse(&bytes, 0).unwrap()
}

fn person(id: i32, player_data_id: i32, all: i8) -> Staff {
    let mut s = Staff::parse(&vec![0u8; 116], 0).unwrap();
    s.id = id;
    s.player_data_id = player_data_id;
    s.determination = all;
    s.pressure = all;
    s.professionalism = all;
    s.sportsmanship = all;
    s.temperament = all;
    s
}

fn store(staff: &[Staff], players: &[Player]) -> Data {
    let mut s = Table::new();
    for x in staff {
        s.push(*x);
    }
    let mut p = Table::new();
    for x in players {
        p.push(*x);
    }
    Data {
        header: Header { compressed: 0, header: 0, files: 2 },
        file_indexes: vec![
            FileIndex { start_position: 548, size: 0, b_name: text("staff.dat") },
            FileIndex { start_position: 0, size: 0, b_name: text("player.dat") },
        ],
        sections: vec![Section::Staff(s), Section::Players(p)],
    }
}

fn value(f: Fraction) -> f64 {
    f.num as f64 / f.den as f64
}

#[test]
fn a_value_is_stretched_between_its_bounds() {
    assert_eq!(stretch(5, 0, 10), Fraction { num: 5, den: 10 });
    assert_eq!(stretch(3000, 3000, 4000), Fraction { num: 0, den: 1000 });
    assert_eq!(stretch(4000, 3000, 4000), Fraction { num: 1000, den: 1000 });
    assert_eq!(stretch(-5, -10, -20), Fraction { num: 5, den: -10 });
    assert_eq!(
        stretch(i64::MAX, i64::MIN, i64::MAX),
        Fraction { num: u64::MAX as i128, den: u64::MAX as i128 }
    );
}

#[test]
fn the_lowest_value_is_raised_to_the_floor() {
    let half = Fraction { num: 1, den: 2 };
    let none = Fraction { num: 0, den: 57 };
    let all = Fraction { num: 57, den: 57 };
    assert_eq!(restrict_minimum(none, half), Fraction { num: 57, den: 114 });
    assert_eq!(restrict_minimum(all, half), Fraction { num: 114, den: 114 });
    assert_eq!(restrict_minimum(half, half), Fraction { num: 3, den: 4 });
    let hundredth = Fraction { num: 1, den: 100 };
    let quarter = Fraction { num: 1, den: 4 };
    assert_eq!(restrict_minimum(quarter, hundredth), Fraction { num: 103, den: 400 });
    assert_eq!(value(restrict_minimum(quarter, hundredth)), 0.2575);
}

#[test]
fn the_chart_shows_the_first_band_that_holds_the_value() {
    let mut chart = AttributeChart::new();
    assert_eq!(chart.convert(120, 5), None);
    chart.set_bands(
        120,
        vec![
            AttributeBand { real: 1, low: -60, high: -20 },
            AttributeBand { real: 2, low: -19, high: 10 },
            AttributeBand { real: 3, low: 5, high: 30 },
        ],
    );
    assert_eq!(chart.convert(120, -60), Some(1));
    assert_eq!(chart.convert(120, -20), Some(1));
    assert_eq!(chart.convert(120, -19), Some(2));
    assert_eq!(chart.convert(120, 7), Some(2));
    assert_eq!(chart.convert(120, 11), Some(3));
    assert_eq!(chart.convert(120, 30), Some(3));
    assert_eq!(chart.convert(120, 31), None);
    assert_eq!(chart.convert(120, -61), None);
    assert_eq!(chart.convert(121, 7), None);
    assert_eq!(convert_attribute(&chart, 120, 7), Some(2));
    assert_eq!(convert_attribute(&chart, 1, 7), None);
    chart.set_bands(120, vec![]);
    assert_eq!(chart.convert(120, 7), None);
}

#[test]
fn attributes_go_by_their_names_on_the_screen() {
    assert_eq!(attribute_by_name("Off The Puck"), Some(Attribute::OffThePuck));
    assert_eq!(attribute_by_name("Creativity"), Some(Attribute::Creativity));
    assert_eq!(attribute_by_name("Rebound Control"), Some(Attribute::ReboundControl));
    assert_eq!(attribute_by_name("One On Ones"), Some(Attribute::OneOnOnes));
    assert_eq!(attribute_by_name("Vision"), None);
    assert_eq!(attribute_by_name("glove"), None);
    let mut p = player(1, 120, 10);
    p.movement_raw = 3;
    p.vision_raw = 4;
    p.rebounds_raw = 5;
    p.glove_raw = 40;
    let chart = plain_chart(&[120]);
    assert_eq!(p.raw_attribute(Attribute::OffThePuck), 3);
    assert_eq!(p.convert_attribute(&chart, "Off The Puck"), Some(3));
    assert_eq!(p.convert_attribute(&chart, "Creativity"), Some(4));
    assert_eq!(p.convert_attribute(&chart, "Rebound Control"), Some(5));
    assert_eq!(p.convert_attribute(&chart, "Glove"), None);
    assert_eq!(p.convert_attribute(&chart, "Speed"), None);
    assert_eq!(p.convert(&chart, Attribute::Wristshot), Some(10));
    p.current_ability = 121;
    assert_eq!(p.convert_attribute(&chart, "Creativity"), None);
}

#[test]
fn the_scores_weigh_the_attributes_in_four_tiers() {
    let chart = plain_chart(&[120]);
    let p = player(1, 120, 10);
    let s = person(1, 1, 10);
    assert_eq!(s.gk_attribute_score(&p, &chart), Some(3700));
    assert_eq!(s.d_attribute_score(&p, &chart), Some(5740));
    assert_eq!(s.w_attribute_score(&p, &chart), Some(5820));
    assert_eq!(s.c_attribute_score(&p, &chart), Some(6620));
}

#[test]
fn every_attribute_counts_with_the_weight_of_its_tier() {
    let chart = plain_chart(&[120]);
    let base = player(1, 120, 10);
    let s = person(1, 1, 10);
    let mut p = base;
    p.glove_raw = 11;
    assert_eq!(s.gk_attribute_score(&p, &chart), Some(3730));
    assert_eq!(s.c_attribute_score(&p, &chart), Some(6620));
    let mut p = base;
    p.stamina = 11;
    assert_eq!(s.gk_attribute_score(&p, &chart), Some(3720));
    assert_eq!(s.d_attribute_score(&p, &chart), Some(5760));
    let mut p = base;
    p.passing_raw = 12;
    assert_eq!(s.gk_attribute_score(&p, &chart), Some(3720));
    assert_eq!(s.d_attribute_score(&p, &chart), Some(5800));
    assert_eq!(s.w_attribute_score(&p, &chart), Some(5880));
    assert_eq!(s.c_attribute_score(&p, &chart), Some(6680));
    let mut p = base;
    p.leadership = 20;
    assert_eq!(s.gk_attribute_score(&p, &chart), Some(3710));
    assert_eq!(s.d_attribute_score(&p, &chart), Some(5750));
    assert_eq!(s.w_attribute_score(&p, &chart), Some(5830));
    assert_eq!(s.c_attribute_score(&p, &chart), Some(6630));
    let mut p = base;
    p.faceoffs_raw = 11;
    assert_eq!(s.c_attribute_score(&p, &chart), Some(6650));
    assert_eq!(s.w_attribute_score(&p, &chart), Some(5820));
    let mut p = base;
    p.strength = 11;
    assert_eq!(s.gk_attribute_score(&p, &chart), Some(3701));
    assert_eq!(s.d_attribute_score(&p, &chart), Some(5760));
    assert_eq!(s.w_attribute_score(&p, &chart), Some(5840));
    assert_eq!(s.c_attribute_score(&p, &chart), Some(6650));
    let mut t = s;
    t.determination = 11;
    assert_eq!(t.gk_attribute_score(&base, &chart), Some(3730));
    assert_eq!(t.c_attribute_score(&base, &chart), Some(6650));
    let mut t = s;
    t.pressure = 11;
    assert_eq!(t.gk_attribute_score(&base, &chart), Some(3710));
    assert_eq!(t.d_attribute_score(&base, &chart), Some(5770));
    let mut t = s;
    t.adaptability = 20;
    t.ambition = 20;
    t.loyalty = 20;
    assert_eq!(t.gk_attribute_score(&base, &chart), Some(3700));
}

#[test]
fn a_score_needs_the_attributes_of_its_class_alone() {
    let chart = plain_chart(&[120]);
    let s = person(1, 1, 10);
    let mut p = player(1, 120, 10);
    p.faceoffs_raw = 99;
    assert_eq!(s.gk_attribute_score(&p, &chart), Some(3700));
    assert_eq!(s.d_attribute_score(&p, &chart), Some(5740));
    assert_eq!(s.c_attribute_score(&p, &chart), None);
    p.glove_raw = 0;
    assert_eq!(s.gk_attribute_score(&p, &chart), None);
    assert_eq!(s.w_attribute_score(&p, &chart), Some(5820));
    p.fighting_raw = 0;
    assert_eq!(s.w_attribute_score(&p, &chart), Some(5820));
    assert_eq!(s.gk_attribute_score(&player(1, 121, 10), &chart), None);
}

#[test]
fn steadiness_runs_from_one_half_to_one() {
    let mut p = player(1, 120, 10);
    assert_eq!(p.consistency_rating(), Fraction { num: 84, den: 114 });
    p.consistency = 20;
    p.important_matches = 20;
    p.work_rate = 20;
    assert_eq!(p.consistency_rating(), Fraction { num: 114, den: 114 });
    p.consistency = 1;
    p.important_matches = 1;
    p.work_rate = 1;
    assert_eq!(p.consistency_rating(), Fraction { num: 57, den: 114 });
}

#[test]
fn the_fit_of_a_position_runs_from_one_half_to_one() {
    let mut p = player(1, 120, 10);
    p.versatility = 12;
    assert_eq!(p.position_rating(20), Fraction { num: 1, den: 1 });
    assert_eq!(p.position_rating(10), Fraction { num: 58, den: 76 });
    assert_eq!(p.position_rating(0), Fraction { num: 49, den: 76 });
    assert_eq!(p.position_rating(1), Fraction { num: 49, den: 76 });
    p.versatility = 1;
    assert_eq!(p.position_rating(1), Fraction { num: 38, den: 76 });
    p.versatility = 20;
    assert_eq!(p.position_rating(19), Fraction { num: 75, den: 76 });
}

#[test]
fn a_rating_is_the_mean_of_two_places_times_the_steadiness() {
    let p = player(1, 120, 10);
    let mut bounds = RatingBounds::new();
    bounds.worst_ca = 100;
    bounds.best_ca = 200;
    let r = p.rating(&bounds, 3700, 3000, 4000);
    assert_eq!(r, Fraction { num: 7_560_000, den: 22_800_000 });
    assert!((value(r) - 0.331_578_947).abs() < 1e-9);
    let top = p.rating(&bounds, 4000, 3000, 4000);
    assert_eq!(top, Fraction { num: (1000 * 100 + 20 * 1000) * 84, den: 2 * 1000 * 100 * 114 });
}

#[test]
fn bounds_that_are_the_same_count_as_the_top() {
    let p = player(1, 120, 10);
    let mut bounds = RatingBounds::new();
    bounds.worst_ca = 120;
    bounds.best_ca = 120;
    assert_eq!(p.rating(&bounds, 3700, 3700, 3700), Fraction { num: 2 * 84, den: 2 * 114 });
    assert_eq!(
        p.rating(&bounds, 3700, 3000, 4000),
        Fraction { num: (700 + 1000) * 84, den: 2000 * 114 }
    );
    bounds.worst_ca = 100;
    bounds.best_ca = 200;
    assert_eq!(p.rating(&bounds, 5, 5, 5), Fraction { num: (100 + 20) * 84, den: 200 * 114 });
}

#[test]
fn the_bounds_are_those_of_all_players() {
    let chart = plain_chart(&[100, 120, 150]);
    let mut goalie = player(1, 120, 10);
    goalie.goaltender = 20;
    let mut better = player(2, 150, 12);
    better.goaltender = 20;
    let skater = player(3, 100, 8);
    let staff = [person(10, 1, 10), person(11, 2, 12), person(12, 3, 8), person(13, 99, 20)];
    let d = store(&staff, &[goalie, better, skater]);
    let b = d.calculate_rating_boundaries(&chart).unwrap();
    assert_eq!(b.worst_ca, 100);
    assert_eq!(b.best_ca, 150);
    assert_eq!(b.worst_gk, 3700 - 2 * 30 * 10 + 2 * 30 * 10);
    assert_eq!(b.worst_gk, staff[0].gk_attribute_score(&goalie, &chart).unwrap());
    assert_eq!(b.best_gk, staff[1].gk_attribute_score(&better, &chart).unwrap());
    assert_eq!(b.best_gk, 370 * 12);
    assert_eq!(b.best_d, 574 * 8);
    assert_eq!(b.worst_d, 574 * 8);
    assert_eq!(b.best_w, 582 * 8);
    assert_eq!(b.worst_c, 662 * 8);
}

#[test]
fn the_bounds_of_no_players_are_upside_down() {
    let chart = plain_chart(&[120]);
    let d = store(&[person(10, 1, 10)], &[]);
    let b = d.calculate_rating_boundaries(&chart).unwrap();
    assert_eq!(b, RatingBounds::new());
    assert_eq!(b.best_gk, i64::MIN);
    assert_eq!(b.worst_gk, i64::MAX);
    assert_eq!(b.best_ca, i16::MIN);
    assert_eq!(b.worst_ca, i16::MAX);
    let empty = Data {
        header: Header { compressed: 0, header: 0, files: 0 },
        file_indexes: vec![],
        sections: vec![],
    };
    assert_eq!(empty.calculate_rating_boundaries(&chart), Some(RatingBounds::new()));
}

#[test]
fn the_best_and_the_worst_of_one_player_are_the_same() {
    let chart = plain_chart(&[120]);
    let mut goalie = player(1, 120, 10);
    goalie.goaltender = 20;
    let d = store(&[person(10, 1, 10)], &[goalie]);
    let b = d.calculate_rating_boundaries(&chart).unwrap();
    assert_eq!((b.best_gk, b.worst_gk), (3700, 3700));
    assert_eq!((b.best_ca, b.worst_ca), (120, 120));
    assert_eq!((b.best_d, b.worst_d), (i64::MIN, i64::MAX));
    let skater = player(1, 120, 10);
    let d = store(&[person(10, 1, 10)], &[skater]);
    let b = d.calculate_rating_boundaries(&chart).unwrap();
    assert_eq!((b.best_d, b.worst_d), (5740, 5740));
    assert_eq!((b.best_w, b.worst_w), (5820, 5820));
    assert_eq!((b.best_c, b.worst_c), (6620, 6620));
    assert_eq!((b.best_gk, b.worst_gk), (i64::MIN, i64::MAX));
    let r = value(d.staff().unwrap().row(0).c_rating(&skater, &chart, &b).unwrap());
    assert!((0.0..=1.0).contains(&r));
}

#[test]
fn a_person_counts_once() {
    let chart = plain_chart(&[100, 120]);
    let weak = player(1, 100, 5);
    let strong = player(2, 120, 10);
    let first = person(10, 1, 10);
    let second = person(10, 2, 10);
    let d = store(&[first, second], &[weak, strong]);
    let b = d.calculate_rating_boundaries(&chart).unwrap();
    assert_eq!((b.worst_ca, b.best_ca), (120, 120));
    assert_eq!((b.worst_d, b.best_d), (5740, 5740));
}

#[test]
fn the_bounds_cannot_be_had_without_the_chart() {
    let chart = plain_chart(&[120]);
    let fine = player(1, 120, 10);
    let odd = player(2, 120, 30);
    let d = store(&[person(10, 1, 10), person(11, 2, 10), person(12, 1, 10)], &[fine, odd]);
    assert_eq!(d.calculate_rating_boundaries(&chart), None);
    let d = store(&[person(10, 1, 10), person(11, 3, 10)], &[fine, odd]);
    assert!(d.calculate_rating_boundaries(&chart).is_some());
}

#[test]
fn the_ratings_of_the_positions_count_the_fit_in() {
    let chart = plain_chart(&[100, 120, 150]);
    let mut p = player(1, 120, 10);
    p.versatility = 12;
    p.left_defence = 20;
    p.right_defence = 10;
    p.center = 0;
    let s = person(10, 1, 10);
    let mut b = RatingBounds::new();
    b.worst_ca = 100;
    b.best_ca = 150;
    b.add_skater(5000, 5000, 6000);
    b.add_skater(6000, 6000, 7000);
    let d = s.d_rating(&p, &chart, &b).unwrap();
    assert_eq!(d, p.rating(&b, 5740, 5000, 6000));
    assert_eq!(d, Fraction { num: (740 * 50 + 20 * 1000) * 84, den: 2 * 1000 * 50 * 114 });
    assert_eq!(s.ld_rating(&p, &chart, &b), Some(d));
    let rd = s.rd_rating(&p, &chart, &b).unwrap();
    assert_eq!(rd, Fraction { num: d.num * 58, den: d.den * 76 });
    let c = s.c_rating(&p, &chart, &b).unwrap();
    let flat = p.rating(&b, 6620, 6000, 7000);
    assert_eq!(c, Fraction { num: flat.num * 49, den: flat.den * 76 });
    let w = s.w_rating(&p, &chart, &b).unwrap();
    assert_eq!(s.lw_rating(&p, &chart, &b), Some(Fraction { num: w.num * 58, den: w.den * 76 }));
    assert_eq!(s.rw_rating(&p, &chart, &b), Some(Fraction { num: w.num * 58, den: w.den * 76 }));
    assert_eq!(s.gk_rating(&p, &chart, &b), Some(p.rating(&b, 3700, i64::MAX, i64::MIN)));
    for r in [d, rd, c, w] {
        assert!((0.0..=1.0).contains(&value(r)));
    }
}

#[test]
fn goalkeepers_and_skaters_are_not_rated_across() {
    let chart = plain_chart(&[100, 120]);
    let mut goalie = player(1, 120, 10);
    goalie.goaltender = 20;
    let skater = player(2, 100, 8);
    let d = store(&[person(10, 1, 10), person(11, 2, 8), person(12, 77, 8)], &[goalie, skater]);
    let b = d.calculate_rating_boundaries(&chart).unwrap();
    let staff = d.staff().unwrap();
    let minus_one = Some(Fraction { num: -1, den: 1 });
    assert_eq!(staff.row(0).relative_ld_rating(&d, &chart, &b), minus_one);
    assert_eq!(staff.row(0).relative_rd_rating(&d, &chart, &b), minus_one);
    assert_eq!(staff.row(0).relative_lw_rating(&d, &chart, &b), minus_one);
    assert_eq!(staff.row(0).relative_rw_rating(&d, &chart, &b), minus_one);
    assert_eq!(staff.row(0).relative_c_rating(&d, &chart, &b), minus_one);
    assert_eq!(staff.row(1).relative_gk_rating(&d, &chart, &b), minus_one);
    assert_eq!(
        staff.row(0).relative_gk_rating(&d, &chart, &b),
        staff.row(0).gk_rating(&goalie, &chart, &b)
    );
    assert_eq!(
        staff.row(1).relative_c_rating(&d, &chart, &b),
        staff.row(1).c_rating(&skater, &chart, &b)
    );
    assert_eq!(staff.row(2).relative_gk_rating(&d, &chart, &b), None);
    assert_eq!(staff.row(2).relative_c_rating(&d, &chart, &b), None);
}
