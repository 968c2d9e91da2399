use ehm_save::data::date::{is_leap_year, SIDate};
use ehm_save::data::date_order::{earlier_of, later_of};

fn date(year: i16, day: i16) -> SIDate {
    SIDate { day, year, b_is_leap_year: 0 }
}

#[test]
fn leap_years_follow_the_gregorian_rule() {
    assert!(is_leap_year(2000));
    assert!(!is_leap_year(1900));
    assert!(is_leap_year(2024));
    assert!(!is_leap_year(2023));
    assert!(!is_leap_year(2100));
    assert!(is_leap_year(-4));
    assert!(!is_leap_year(-100));
    assert!(is_leap_year(-400));
    assert!(date(2024, 0).is_leap_year());
    assert!(!date(2023, 0).is_leap_year());
}

#[test]
fn the_flag_of_the_file_is_carried_and_not_believed() {
    let d = SIDate { day: 3, year: 2001, b_is_leap_year: 1 };
    assert!(d._is_leap_year_si());
    assert!(!d.is_leap_year());
    let mut moved = d;
    assert!(moved.add_days(400));
    assert_eq!(moved.b_is_leap_year, 1);
}

#[test]
fn a_date_moved_by_no_days_stays() {
    for (year, day) in [(2006, 0), (2006, 364), (2004, 365), (-32768, 0), (32767, 364)] {
        let mut d = date(year, day);
        assert!(d.add_days(0));
        assert_eq!(d, date(year, day));
    }
}

#[test]
fn a_date_moved_there_and_back_is_the_date_again() {
    let starts = [date(2006, 100), date(2004, 365), date(1900, 31), date(2000, 59), date(0, 0)];
    let moves: [i64; 12] = [1, -1, 59, 365, 366, -365, -366, 1461, 36524, -36525, 99_999, -99_999];
    for start in starts {
        for n in moves {
            let mut d = start;
            assert!(d.add_days(n));
            assert!(d.is_valid());
            assert!(d.add_days(-n));
            assert_eq!(d, start);
        }
    }
}

#[test]
fn days_roll_over_the_ends_of_years() {
    let mut d = date(2003, 364);
    assert!(d.add_days(1));
    assert_eq!(d, date(2004, 0));
    assert!(d.add_days(365));
    assert_eq!(d, date(2004, 365));
    assert!(d.add_days(1));
    assert_eq!(d, date(2005, 0));
    assert!(d.add_days(-1));
    assert_eq!(d, date(2004, 365));
    assert!(d.add_days(-366));
    assert_eq!(d, date(2003, 364));
    let mut e = date(2000, 0);
    assert!(e.add_days(-36524));
    assert_eq!(e, date(1900, 0));
    assert!(e.add_days(36524 + 36525 + 36524 + 36524));
    assert_eq!(e, date(2300, 0));
}

#[test]
fn a_day_outside_its_year_is_brought_into_a_year() {
    let mut d = date(2005, 400);
    assert!(d.add_days(0));
    assert_eq!(d, date(2006, 35));
    let mut e = date(2005, -1);
    assert!(e.add_days(0));
    assert_eq!(e, date(2004, 365));
}

#[test]
fn a_year_that_cannot_be_stored_is_not_produced() {
    let mut d = date(32767, 364);
    assert!(!d.add_days(1));
    assert_eq!(d, date(32767, 364));
    let mut e = date(-32768, 0);
    assert!(!e.add_days(-1));
    assert_eq!(e, date(-32768, 0));
    let mut f = date(2000, 0);
    assert!(!f.add_days(i64::MAX));
    assert!(!f.add_days(i64::MIN));
    assert_eq!(f, date(2000, 0));
    assert!(f.add_days(11_222_000));
    assert_eq!(f.year, 32724);
}

#[test]
fn new_counts_days_from_the_start_of_the_year() {
    assert_eq!(SIDate::new(2006, 0), Some(date(2006, 0)));
    assert_eq!(SIDate::new(2006, 365), Some(date(2007, 0)));
    assert_eq!(SIDate::new(2004, 365), Some(date(2004, 365)));
    assert_eq!(SIDate::new(2004, -1), Some(date(2003, 364)));
    assert_eq!(SIDate::new(32767, 365), None);
}

#[test]
fn new_from_date_counts_the_months() {
    assert_eq!(SIDate::_new_from_date(2006, 1, 1), Some(date(2006, 0)));
    assert_eq!(SIDate::_new_from_date(2006, 3, 1), Some(date(2006, 59)));
    assert_eq!(SIDate::_new_from_date(2004, 3, 1), Some(date(2004, 60)));
    assert_eq!(SIDate::_new_from_date(2006, 12, 31), Some(date(2006, 364)));
    assert_eq!(SIDate::_new_from_date(2004, 12, 31), Some(date(2004, 365)));
    assert_eq!(SIDate::_new_from_date(2006, 0, 1), None);
    assert_eq!(SIDate::_new_from_date(2006, 13, 1), None);
}

#[test]
fn year_month_day_names_the_day() {
    assert_eq!(date(2006, 0).to_year_month_day(), (2006, 1, 1));
    assert_eq!(date(2006, 30).to_year_month_day(), (2006, 1, 31));
    assert_eq!(date(2006, 31).to_year_month_day(), (2006, 2, 1));
    assert_eq!(date(2006, 58).to_year_month_day(), (2006, 2, 28));
    assert_eq!(date(2006, 59).to_year_month_day(), (2006, 3, 1));
    assert_eq!(date(2004, 59).to_year_month_day(), (2004, 2, 29));
    assert_eq!(date(2004, 60).to_year_month_day(), (2004, 3, 1));
    assert_eq!(date(2006, 364).to_year_month_day(), (2006, 12, 31));
    assert_eq!(date(2004, 365).to_year_month_day(), (2004, 12, 31));
}

#[test]
fn year_month_day_and_back() {
    for year in [2003, 2004] {
        let days = if is_leap_year(year) { 366 } else { 365 };
        for day in 0..days {
            let (y, m, d) = date(year, day).to_year_month_day();
            assert_eq!(SIDate::_new_from_date(y, m, d), Some(date(year, day)));
        }
    }
}

#[test]
fn days_are_counted_through_leap_years() {
    assert_eq!(date(1900, 31)._to_days(), Some(0));
    assert_eq!(date(1900, 32)._to_days(), Some(1));
    assert_eq!(date(1901, 0)._to_days(), Some(334));
    assert_eq!(date(1904, 0)._to_days(), Some(334 + 3 * 365));
    assert_eq!(date(1905, 0)._to_days(), Some(334 + 3 * 365 + 366));
    assert_eq!(date(2000, 0)._to_days(), Some(334 + 99 * 365 + 24));
    assert_eq!(date(1900, 30)._to_days(), None);
    assert_eq!(date(1899, 364)._to_days(), None);
    assert_eq!(date(2006, 0)._days_between(date(2004, 0)), Some(731));
    assert_eq!(date(2004, 0)._days_between(date(2006, 0)), None);
    assert_eq!(date(2006, 17)._days_between(date(2006, 17)), Some(0));
}

#[test]
fn the_day_number_agrees_with_moving_by_days() {
    let start = date(1896, 13);
    let mut d = start;
    for n in [1i64, 365, 1000, 36525, 99_999] {
        let before = d.day_number();
        assert!(d.add_days(n));
        assert_eq!(d.day_number(), before + n);
    }
    assert_eq!(date(0, 0).day_number(), 0);
    assert_eq!(date(1, 0).day_number(), 366);
    assert_eq!(date(-1, 0).day_number(), -365);
}

#[test]
fn years_are_added_with_the_last_day_of_a_leap_year_in_mind() {
    let mut d = date(2004, 365);
    d._add_years(1);
    assert_eq!(d, date(2005, 364));
    let mut e = date(2004, 365);
    e._add_years(4);
    assert_eq!(e, date(2008, 365));
    let mut f = date(2004, 100);
    f._add_years(-3);
    assert_eq!(f, date(2001, 100));
}

#[test]
fn the_default_date_stands_for_no_date() {
    let d = SIDate::default();
    assert_eq!(d, date(1900, 31));
    assert!(d._is_default());
    assert!(!date(1900, 30)._is_default());
    assert!(SIDate { day: 31, year: 1900, b_is_leap_year: 9 }._is_default());
}

#[test]
fn dates_are_ordered_by_year_and_then_by_day() {
    assert!(date(2005, 364) < date(2006, 0));
    assert!(date(2006, 1) > date(2006, 0));
    assert!(date(2006, 1) >= date(2006, 1));
    assert!(date(2006, 1) <= date(2006, 1));
    assert!(!(date(2006, 1) < date(2006, 1)));
    let flagged = SIDate { day: 1, year: 2006, b_is_leap_year: 1 };
    assert!(!(flagged < date(2006, 1)) && !(flagged > date(2006, 1)));
    assert_eq!(later_of(date(2005, 364), date(2006, 0)), date(2006, 0));
    assert_eq!(later_of(date(2006, 5), date(2006, 0)), date(2006, 5));
    assert_eq!(earlier_of(date(2005, 364), date(2006, 0)), date(2005, 364));
    assert_eq!(earlier_of(date(2006, 5), date(2006, 0)), date(2006, 0));
}

#[test]
fn a_date_is_five_bytes() {
    let d = SIDate { day: 258, year: -2, b_is_leap_year: 7 };
    assert_eq!(d._to_bytes(), vec![2, 1, 0xfe, 0xff, 7]);
}
