//! The game's calendar: a date is a year and a zero-based day within it.

use vstd::prelude::*;
use vstd::string::StringExecFns;

use crate::chars::{decimal_text, push_decimal};
use crate::to_bytes::{
    group_le_len, le_i16, le_u8, lemma_concat_cancel, lemma_le_i16_injective, lemma_le_u8_injective,
    put_i16, put_u8, Reader,
};

verus! {

broadcast use group_le_len;

/// The first day of the year that a twenty-ninth of February would push back.
pub const LEAP_DAY: i16 = 59;

/// A date as the save file holds it.
///
/// `b_is_leap_year` is carried through unchanged and never consulted: whether
/// a year is a leap year follows from `year` alone.
#[derive(Clone, Copy, Debug, PartialEq, Eq, Structural)]
pub struct SIDate {
    pub day: i16,
    pub year: i16,
    pub b_is_leap_year: u8,
}

/// The Gregorian rule.
pub open spec fn is_leap(year: int) -> bool {
    (year % 4 == 0 && year % 100 != 0) || year % 400 == 0
}

pub open spec fn year_len(year: int) -> int {
    if is_leap(year) {
        366
    } else {
        365
    }
}

/// The number of days between the first day of year 0 and the first day of
/// `year`; negative before year 0.
pub open spec fn year_start(year: int) -> int {
    365 * year + (year + 3) / 4 - (year + 99) / 100 + (year + 399) / 400
}

/// The length of the months of a year, January being month 1.
pub open spec fn month_len(year: int, month: int) -> int {
    if month == 2 {
        if is_leap(year) {
            29
        } else {
            28
        }
    } else if month == 4 || month == 6 || month == 9 || month == 11 {
        30
    } else {
        31
    }
}

/// The days of the year that lie before the first of `month`.
pub open spec fn days_before_month(year: int, month: int) -> int
    decreases month,
{
    if month <= 1 {
        0
    } else {
        days_before_month(year, month - 1) + month_len(year, month - 1)
    }
}

pub proof fn lemma_year_step(year: int)
    ensures
        year_start(year + 1) == year_start(year) + year_len(year),
{
}

/// Later years start later, by at least their predecessors' lengths.
pub proof fn lemma_year_start_monotonic(a: int, b: int)
    requires
        a < b,
    ensures
        year_start(a) + year_len(a) <= year_start(b),
    decreases b - a,
{
    lemma_year_step(a);
    if a + 1 < b {
        lemma_year_start_monotonic(a + 1, b);
    }
}

pub proof fn lemma_days_before_month_bounds(year: int, month: int)
    requires
        1 <= month <= 13,
    ensures
        days_before_month(year, month) <= 31 * (month - 1),
        days_before_month(year, month) >= 28 * (month - 1),
        month == 13 ==> days_before_month(year, month) == year_len(year),
{
    reveal_with_fuel(days_before_month, 14);
}

pub fn is_leap_year(year: i16) -> (leap: bool)
    ensures
        leap == is_leap(year as int),
{
    // 32800 is a multiple of 400, so the shifted year leaves the same
    // remainders and is never negative.
    let y: i32 = year as i32 + 32800;
    (y % 4 == 0 && y % 100 != 0) || y % 400 == 0
}

fn days_in_year(year: i16) -> (n: i16)
    ensures
        n == year_len(year as int),
{
    if is_leap_year(year) {
        366
    } else {
        365
    }
}

fn days_in_month(year: i16, month: u8) -> (n: i16)
    ensures
        n == month_len(year as int, month as int),
{
    if month == 2 {
        if is_leap_year(year) {
            29
        } else {
            28
        }
    } else if month == 4 || month == 6 || month == 9 || month == 11 {
        30
    } else {
        31
    }
}

impl SIDate {
    /// Whether the day lies within the year.
    pub open spec fn valid(&self) -> bool {
        0 <= self.day < year_len(self.year as int)
    }

    /// The number of the day, counted from the first day of year 0.
    pub open spec fn ordinal(&self) -> int {
        year_start(self.year as int) + self.day
    }

    /// The lexicographic order on year and day.
    pub open spec fn before(&self, other: &SIDate) -> bool {
        self.year < other.year || (self.year == other.year && self.day < other.day)
    }

    /// Whether `self` is the date `days` days after `from`.
    pub open spec fn is_shift_of(&self, from: SIDate, days: int) -> bool {
        &&& self.valid()
        &&& self.ordinal() == from.ordinal() + days
        &&& self.b_is_leap_year == from.b_is_leap_year
    }

    /// Whether a date `days` days after `self` has a year that can be stored.
    pub open spec fn shift_in_range(&self, days: int) -> bool {
        year_start(i16::MIN as int) <= self.ordinal() + days < year_start(i16::MAX + 1)
    }

    /// The date `days` days after `self`, where its year can be stored.
    pub open spec fn shifted(&self, days: int) -> SIDate {
        choose|d: SIDate| d.is_shift_of(*self, days)
    }

    /// The date `days` days after `self`; `None` where its year cannot be
    /// stored.
    pub open spec fn shift(&self, days: int) -> Option<SIDate> {
        if self.shift_in_range(days) {
            Some(self.shifted(days))
        } else {
            None
        }
    }

    /// The five bytes of the date in a record.
    pub open spec fn encoding(&self) -> Seq<u8> {
        le_i16(self.day) + le_i16(self.year) + le_u8(self.b_is_leap_year)
    }

    /// The day numbered `day` of `year`, where `day` may run past the end of
    /// the year or before its start. `None` where the year of that day
    /// cannot be stored.
    pub fn new(year: i16, day: i16) -> (r: Option<SIDate>)
        ensures
            r == (SIDate { day: 0, year, b_is_leap_year: 0 }).shift(day as int),
    {
        let mut date = SIDate { day: 0, year, b_is_leap_year: 0 };
        if date.add_days(day as i64) {
            Some(date)
        } else {
            None
        }
    }

    /// The date of a day of a month, both counted from 1. `None` where
    /// `month` is no month. `month_day` is not held to the month's length:
    /// a day past its end lands in a later month.
    pub fn _new_from_date(year: i16, month: u8, month_day: u8) -> (r: Option<SIDate>)
        ensures
            r.is_some() <==> 1 <= month <= 12,
            r matches Some(d) ==> {
                &&& d.year == year
                &&& d.day == days_before_month(year as int, month as int) + month_day - 1
                &&& d.b_is_leap_year == 0
            },
    {
        if month < 1 || month > 12 {
            return None;
        }
        let mut day: i16 = 0;
        let mut m: u8 = 1;
        while m < month
            invariant
                1 <= m <= month <= 12,
                day == days_before_month(year as int, m as int),
            decreases month - m,
        {
            proof {
                lemma_days_before_month_bounds(year as int, m as int);
            }
            day = day + days_in_month(year, m);
            m = m + 1;
        }
        proof {
            lemma_days_before_month_bounds(year as int, month as int);
        }
        day = day + month_day as i16 - 1;
        Some(SIDate { year, day, b_is_leap_year: 0 })
    }

    /// What the file says of the year; not to be relied on.
    pub fn _is_leap_year_si(&self) -> (b: bool)
        ensures
            b == (self.b_is_leap_year != 0),
    {
        self.b_is_leap_year != 0
    }

    /// Whether the year is a leap year.
    pub fn is_leap_year(&self) -> (b: bool)
        ensures
            b == is_leap(self.year as int),
    {
        is_leap_year(self.year)
    }

    pub fn is_valid(&self) -> (b: bool)
        ensures
            b == self.valid(),
    {
        0 <= self.day && self.day < days_in_year(self.year)
    }

    /// Whether this is the date that stands for "no date".
    pub fn _is_default(&self) -> (b: bool)
        ensures
            b == (self.day == 31 && self.year == 1900),
    {
        self.day == 31 && self.year == 1900
    }

    pub fn _to_bytes(&self) -> (out: Vec<u8>)
        ensures
            out@ == self.encoding(),
    {
        let mut out = Vec::new();
        self.write(&mut out);
        assert(Seq::<u8>::empty() + self.encoding() =~= self.encoding());
        out
    }

    /// Appends the date's five bytes to `out`.
    pub fn write(&self, out: &mut Vec<u8>)
        ensures
            final(out)@ == old(out)@ + self.encoding(),
    {
        put_i16(out, self.day);
        put_i16(out, self.year);
        put_u8(out, self.b_is_leap_year);
        assert(out@ =~= old(out)@ + self.encoding());
    }

    /// Reads the five bytes of a date.
    pub fn read(r: &mut Reader) -> (d: SIDate)
        requires
            old(r).wf(),
            old(r).left() >= 5,
        ensures
            old(r).advanced(final(r), d.encoding()),
    {
        let day = r.read_i16();
        let year = r.read_i16();
        let b_is_leap_year = r.read_u8();
        let d = SIDate { day, year, b_is_leap_year };
        assert(r.taken() =~= old(r).taken() + d.encoding());
        d
    }

    /// The date for diagnosis: the year, the day, whether the year is a leap
    /// year, and what the file says of that, in brackets.
    pub open spec fn debug_text(&self) -> Seq<char> {
        "("@ + decimal_text(self.year as int) + ", "@ + decimal_text(self.day as int) + ", "@ + (
        if is_leap(self.year as int) {
            "true"@
        } else {
            "false"@
        }) + ", "@ + decimal_text(self.b_is_leap_year as int) + ")"@
    }

    /// The date as it is shown: the day of the month, the month and the
    /// year, with points between them.
    pub open spec fn shown_text(&self, month: int, month_day: int) -> Seq<char> {
        decimal_text(month_day) + "."@ + decimal_text(month) + "."@ + decimal_text(
            self.year as int,
        )
    }

    /// The date for diagnosis.
    pub fn to_string(&self) -> (s: String)
        ensures
            s@ == self.debug_text(),
    {
        let mut s = String::new();
        s.append("(");
        assert(s@ =~= "("@);
        push_decimal(&mut s, self.year as i64);
        s.append(", ");
        push_decimal(&mut s, self.day as i64);
        s.append(", ");
        if self.is_leap_year() {
            s.append("true");
        } else {
            s.append("false");
        }
        s.append(", ");
        push_decimal(&mut s, self.b_is_leap_year as i64);
        s.append(")");
        s
    }

    /// The date as it is shown: the day of the month, the month and the
    /// year, with points between them.
    pub fn to_day_month_year(&self) -> (s: String)
        requires
            self.valid(),
        ensures
            exists|month: int, month_day: int|
                {
                    &&& 1 <= month <= 12
                    &&& 1 <= month_day <= month_len(self.year as int, month)
                    &&& days_before_month(self.year as int, month) + month_day - 1 == self.day
                    &&& s@ == #[trigger] self.shown_text(month, month_day)
                },
    {
        let (year, month, month_day) = self.to_year_month_day();
        let mut s = String::new();
        push_decimal(&mut s, month_day as i64);
        assert(s@ =~= decimal_text(month_day as int));
        s.append(".");
        push_decimal(&mut s, month as i64);
        s.append(".");
        push_decimal(&mut s, year as i64);
        assert(s@ == self.shown_text(month as int, month_day as int));
        s
    }

    /// The number of the day on a scale that runs through all years.
    pub fn day_number(&self) -> (n: i64)
        ensures
            n == self.ordinal(),
    {
        // Shifted by a multiple of 400 years, the year is positive and the
        // divisions round as they do in `year_start`.
        let y: i64 = self.year as i64 + 32800;
        let shifted: i64 = 365 * y + (y + 3) / 4 - (y + 99) / 100 + (y + 399) / 400;
        assert(shifted == year_start(self.year as int) + 365 * 32800 + 8200 - 328 + 82);
        shifted - 11979954 + self.day as i64
    }

    /// The days from `other` to this date; `None` where `other` is the
    /// later of the two.
    pub fn _days_between(&self, other: SIDate) -> (r: Option<u64>)
        ensures
            r.is_some() <==> other.ordinal() <= self.ordinal(),
            r matches Some(n) ==> n == self.ordinal() - other.ordinal(),
    {
        let a = self.day_number();
        let b = other.day_number();
        proof {
            lemma_ordinal_bounds(*self);
            lemma_ordinal_bounds(other);
        }
        if b <= a {
            Some((a - b) as u64)
        } else {
            None
        }
    }

    /// The days since the day that stands for "no date", day 31 of 1900;
    /// `None` for an earlier date.
    pub fn _to_days(&self) -> (r: Option<u64>)
        ensures
            r.is_some() <==> epoch().ordinal() <= self.ordinal(),
            r matches Some(n) ==> n == self.ordinal() - epoch().ordinal(),
    {
        self._days_between(SIDate { day: 31, year: 1900, b_is_leap_year: 0 })
    }

    /// The year, the month and the day of the month, the latter two counted
    /// from 1.
    pub fn to_year_month_day(&self) -> (r: (i16, u8, u8))
        requires
            self.valid(),
        ensures
            r.0 == self.year,
            1 <= r.1 <= 12,
            1 <= r.2 <= month_len(self.year as int, r.1 as int),
            days_before_month(self.year as int, r.1 as int) + r.2 - 1 == self.day,
    {
        let mut days: i16 = self.day;
        let mut month: u8 = 1;
        proof {
            lemma_days_before_month_bounds(self.year as int, 13);
        }
        while month < 12 && days >= days_in_month(self.year, month)
            invariant
                1 <= month <= 12,
                0 <= days,
                days_before_month(self.year as int, month as int) + days == self.day,
                self.day < days_before_month(self.year as int, 13),
            decreases 12 - month,
        {
            days = days - days_in_month(self.year, month);
            month = month + 1;
        }
        proof {
            reveal_with_fuel(days_before_month, 14);
        }
        (self.year, month, (days + 1) as u8)
    }

    /// Moves the date by whole years. The last day of a leap year becomes
    /// the last day of a year that is none.
    pub fn _add_years(&mut self, years: i16)
        requires
            i16::MIN <= old(self).year + years <= i16::MAX,
        ensures
            final(self).year == old(self).year + years,
            final(self).b_is_leap_year == old(self).b_is_leap_year,
            final(self).day == if old(self).day == 365 && !is_leap(old(self).year + years) {
                364int
            } else {
                old(self).day as int
            },
    {
        self.year = self.year + years;
        if self.day == 365 && !is_leap_year(self.year) {
            self.day = self.day - 1;
        }
    }

    /// Moves the date by `days` days, back where `days` is negative, one
    /// year at a time. Returns whether it did: a date whose year cannot be
    /// stored is not produced, and the date is then left as it was.
    pub fn add_days(&mut self, days: i64) -> (moved: bool)
        ensures
            moved <==> old(self).shift_in_range(days as int),
            moved ==> final(self).is_shift_of(*old(self), days as int),
            moved ==> Some(*final(self)) == old(self).shift(days as int),
            !moved ==> *final(self) == *old(self),
    {
        let ghost target: int = self.ordinal() + days;
        let mut year: i16 = self.year;
        let mut rest: i128 = days as i128 + self.day as i128;
        loop
            invariant
                target == old(self).ordinal() + days,
                year_start(year as int) + rest == target,
                *self == *old(self),
                -0x8000_0000_0000_8000 <= rest <= 0x8000_0000_0000_8000,
            ensures
                0 <= rest < year_len(year as int),
            decreases
                    (if rest < 0 {
                        1int
                    } else {
                        0int
                    }),
                    (if rest < 0 {
                        year - i16::MIN
                    } else {
                        i16::MAX - year
                    }),
        {
            let len = days_in_year(year) as i128;
            if rest >= len {
                if year == i16::MAX {
                    proof {
                        lemma_year_step(year as int);
                    }
                    return false;
                }
                proof {
                    lemma_year_step(year as int);
                }
                rest = rest - len;
                year = year + 1;
            } else if rest < 0 {
                if year == i16::MIN {
                    return false;
                }
                year = year - 1;
                proof {
                    lemma_year_step(year as int);
                }
                rest = rest + days_in_year(year) as i128;
            } else {
                break ;
            }
        }
        proof {
            lemma_year_step(year as int);
            if i16::MIN < year {
                lemma_year_start_monotonic(i16::MIN as int, year as int);
            }
            if year < i16::MAX {
                lemma_year_start_monotonic(year as int, i16::MAX as int);
            }
            lemma_year_step(i16::MAX as int);
        }
        self.year = year;
        self.day = rest as i16;
        proof {
            lemma_shift_unique(*old(self), days as int, *self, old(self).shifted(days as int));
        }
        true
    }
}

/// The date that stands for "no date": day 31 of 1900.
pub open spec fn epoch() -> SIDate {
    SIDate { day: 31, year: 1900, b_is_leap_year: 0 }
}

impl Default for SIDate {
    fn default() -> (d: SIDate)
        ensures
            d == epoch(),
    {
        SIDate { day: 31, year: 1900, b_is_leap_year: 0 }
    }
}

pub proof fn lemma_ordinal_bounds(d: SIDate)
    ensures
        -12_100_000 <= d.ordinal() <= 12_100_000,
{
}

/// A date is known by its five bytes.
pub proof fn lemma_date_encoding_injective(a: SIDate, b: SIDate)
    requires
        a.encoding() == b.encoding(),
    ensures
        a == b,
{
    lemma_concat_cancel(
        le_i16(a.day) + le_i16(a.year),
        le_u8(a.b_is_leap_year),
        le_i16(b.day) + le_i16(b.year),
        le_u8(b.b_is_leap_year),
    );
    lemma_concat_cancel(le_i16(a.day), le_i16(a.year), le_i16(b.day), le_i16(b.year));
    lemma_le_i16_injective(a.day, b.day);
    lemma_le_i16_injective(a.year, b.year);
    lemma_le_u8_injective(a.b_is_leap_year, b.b_is_leap_year);
}

/// A day has one date: two valid dates with the same day number are the
/// same day of the same year.
pub proof fn lemma_ordinal_injective(a: SIDate, b: SIDate)
    requires
        a.valid(),
        b.valid(),
        a.ordinal() == b.ordinal(),
    ensures
        a.year == b.year,
        a.day == b.day,
{
    if a.year < b.year {
        lemma_year_start_monotonic(a.year as int, b.year as int);
    }
    if b.year < a.year {
        lemma_year_start_monotonic(b.year as int, a.year as int);
    }
}

/// There is one date a given number of days after another.
pub proof fn lemma_shift_unique(from: SIDate, days: int, a: SIDate, b: SIDate)
    requires
        a.is_shift_of(from, days),
        b.is_shift_of(from, days),
    ensures
        a == b,
{
    lemma_ordinal_injective(a, b);
}

/// Moving a valid date by no days leaves it as it is.
pub proof fn lemma_shift_by_zero(d: SIDate)
    requires
        d.valid(),
    ensures
        d.shift(0) == Some(d),
{
    lemma_shift_in_range(d, 0);
    assert(d.is_shift_of(d, 0));
    lemma_shift_unique(d, 0, d, d.shifted(0));
}

/// Moving a valid date by some days and then back by as many gives the date
/// again, wherever the date in between has a year that can be stored.
pub proof fn lemma_shift_there_and_back(d: SIDate, n: int)
    requires
        d.valid(),
        d.shift_in_range(n),
    ensures
        d.shift(n) is Some,
        d.shift(n).unwrap().shift(-n) == Some(d),
{
    let there = d.shifted(n);
    lemma_shift_exists(d, n);
    assert(there.is_shift_of(d, n));
    if i16::MIN < d.year {
        lemma_year_start_monotonic(i16::MIN as int, d.year as int);
    }
    if d.year < i16::MAX {
        lemma_year_start_monotonic(d.year as int, i16::MAX as int);
    }
    lemma_year_step(i16::MAX as int);
    assert(there.shift_in_range(-n));
    assert(d.is_shift_of(there, -n));
    lemma_shift_unique(there, -n, d, there.shifted(-n));
}

/// Every day whose year can be stored has a date.
pub proof fn lemma_shift_exists(d: SIDate, n: int)
    requires
        d.shift_in_range(n),
    ensures
        d.shifted(n).is_shift_of(d, n),
{
    let target = d.ordinal() + n;
    lemma_year_of_day(target, i16::MIN as int, i16::MAX + 1);
    let y = choose|y: int|
        i16::MIN <= y < i16::MAX + 1 && #[trigger] year_start(y) <= target < year_start(y + 1);
    lemma_year_step(y);
    let witness = SIDate {
        day: (target - year_start(y)) as i16,
        year: y as i16,
        b_is_leap_year: d.b_is_leap_year,
    };
    assert(witness.is_shift_of(d, n));
}

/// A day between the starts of two years lies in one of the years between
/// them.
pub proof fn lemma_year_of_day(day: int, from: int, to: int)
    requires
        from < to,
        year_start(from) <= day < year_start(to),
    ensures
        exists|y: int| from <= y < to && #[trigger] year_start(y) <= day < year_start(y + 1),
    decreases to - from,
{
    if day < year_start(from + 1) {
        assert(from <= from < to && year_start(from) <= day < year_start(from + 1));
    } else {
        lemma_year_of_day(day, from + 1, to);
        let y = choose|y: int|
            from + 1 <= y < to && #[trigger] year_start(y) <= day < year_start(y + 1);
        assert(from <= y < to && year_start(y) <= day < year_start(y + 1));
    }
}

/// A valid date can always be moved by no days, and within a hundred
/// thousand days wherever its year is at least three centuries from either
/// end of the years that can be stored.
pub proof fn lemma_shift_in_range(d: SIDate, n: int)
    requires
        d.valid(),
        -100_000 < n < 100_000,
        n == 0 || i16::MIN + 300 <= d.year <= i16::MAX - 300,
    ensures
        d.shift_in_range(n),
{
    if i16::MIN < d.year {
        lemma_year_start_monotonic(i16::MIN as int, d.year as int);
    }
    if d.year < i16::MAX {
        lemma_year_start_monotonic(d.year as int, i16::MAX as int);
    }
    lemma_year_step(i16::MAX as int);
}

} // verus!
