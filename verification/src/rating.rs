//! The arithmetic of ratings.
//!
//! A rating is a ratio of two whole numbers and is kept as one, so that
//! nothing is rounded before the rating is shown.

use vstd::prelude::*;

verus! {

/// The ratio `num / den`.
#[derive(Clone, Copy, Debug, PartialEq, Eq, Structural)]
pub struct Fraction {
    pub num: i128,
    pub den: i128,
}

/// The most that a part of a fraction may be for `restrict_minimum` to take
/// it.
pub const PART_LIMIT: i128 = 0x1000_0000_0000_0000;

/// The most that a part of a rating may be for `Fraction::times` to take
/// it.
pub const RATING_LIMIT: i128 = 0x10_0000_0000_0000_0000_0000_0000;

/// The most that a part of a factor may be for `Fraction::times` to take
/// it.
pub const FACTOR_LIMIT: i128 = 0x10_0000;

impl Fraction {
    /// Whether the ratio lies between 0 and 1, the denominator being
    /// positive.
    pub open spec fn in_unit(&self) -> bool {
        self.den > 0 && 0 <= self.num <= self.den
    }

    /// Whether both parts are small enough to be multiplied.
    pub open spec fn small(&self) -> bool {
        -PART_LIMIT <= self.num <= PART_LIMIT && -PART_LIMIT <= self.den <= PART_LIMIT
    }

    /// Whether no part is further from zero than `limit`.
    pub open spec fn within(&self, limit: i128) -> bool {
        -limit <= self.num <= limit && -limit <= self.den <= limit
    }

    /// The product of a rating and a factor.
    pub fn times(self, factor: Fraction) -> (r: Fraction)
        requires
            self.within(RATING_LIMIT),
            factor.within(FACTOR_LIMIT),
        ensures
            r.num == self.num * factor.num,
            r.den == self.den * factor.den,
            r == product(self, factor),
    {
        proof {
            lemma_mul_bounds(
                self.num as int,
                factor.num as int,
                RATING_LIMIT as int,
                FACTOR_LIMIT as int,
            );
            lemma_mul_bounds(
                self.den as int,
                factor.den as int,
                RATING_LIMIT as int,
                FACTOR_LIMIT as int,
            );
        }
        Fraction { num: self.num * factor.num, den: self.den * factor.den }
    }
}

/// The product of two ratios.
pub open spec fn product(a: Fraction, b: Fraction) -> Fraction {
    Fraction { num: (a.num * b.num) as i128, den: (a.den * b.den) as i128 }
}

/// A product is no further from zero than the product of the bounds of its
/// factors.
pub proof fn lemma_mul_bounds(x: int, y: int, bx: int, by: int)
    requires
        -bx <= x <= bx,
        -by <= y <= by,
    ensures
        -(bx * by) <= x * y <= bx * by,
{
    assert(-(bx * by) <= x * y <= bx * by) by (nonlinear_arith)
        requires
            -bx <= x <= bx,
            -by <= y <= by,
    ;
}

/// A product of numbers from 0 to their bounds lies between 0 and the
/// product of the bounds.
pub proof fn lemma_mul_within(x: int, y: int, bx: int, by: int)
    requires
        0 <= x <= bx,
        0 <= y <= by,
    ensures
        0 <= x * y <= bx * by,
{
    assert(0 <= x * y <= bx * by) by (nonlinear_arith)
        requires
            0 <= x <= bx,
            0 <= y <= by,
    ;
}

/// Where `value` stands between `low` and `high`: 0 at `low`, 1 at `high`.
///
/// There is no such place where `low` and `high` are the same, and the
/// function is not to be called then.
pub fn stretch(value: i64, low: i64, high: i64) -> (r: Fraction)
    requires
        low != high,
    ensures
        r.num == value - low,
        r.den == high - low,
        r.den != 0,
{
    Fraction { num: value as i128 - low as i128, den: high as i128 - low as i128 }
}

/// Moves a ratio from between 0 and 1 to between `floor` and 1: 0 becomes
/// `floor`, and 1 stays 1.
pub fn restrict_minimum(value: Fraction, floor: Fraction) -> (r: Fraction)
    requires
        value.small(),
        floor.small(),
    ensures
        r.num == floor.num * value.den + value.num * (floor.den - floor.num),
        r.den == floor.den * value.den,
{
    let room: i128 = floor.den - floor.num;
    proof {
        lemma_mul_bounds(
            floor.num as int,
            value.den as int,
            PART_LIMIT as int,
            PART_LIMIT as int,
        );
        lemma_mul_bounds(value.num as int, room as int, PART_LIMIT as int, 2 * PART_LIMIT);
        lemma_mul_bounds(
            floor.den as int,
            value.den as int,
            PART_LIMIT as int,
            PART_LIMIT as int,
        );
    }
    Fraction { num: floor.num * value.den + value.num * room, den: floor.den * value.den }
}

/// A ratio between 0 and 1 stays there when its lowest value is raised to a
/// floor between 0 and 1.
pub proof fn lemma_restrict_minimum_in_unit(value: Fraction, floor: Fraction, r: Fraction)
    requires
        value.in_unit(),
        floor.in_unit(),
        r.num == floor.num * value.den + value.num * (floor.den - floor.num),
        r.den == floor.den * value.den,
    ensures
        r.in_unit(),
{
    assert(floor.den * value.den > 0) by (nonlinear_arith)
        requires
            floor.den > 0,
            value.den > 0,
    ;
    assert(0 <= floor.num * value.den + value.num * (floor.den - floor.num) <= floor.den
        * value.den) by (nonlinear_arith)
        requires
            0 <= value.num <= value.den,
            0 <= floor.num <= floor.den,
    ;
}

/// The product of two ratios between 0 and 1 lies between 0 and 1.
pub proof fn lemma_times_in_unit(a: Fraction, b: Fraction)
    requires
        a.in_unit(),
        b.in_unit(),
    ensures
        a.den * b.den > 0,
        0 <= a.num * b.num <= a.den * b.den,
{
    assert(a.den * b.den > 0) by (nonlinear_arith)
        requires
            a.den > 0,
            b.den > 0,
    ;
    lemma_mul_within(a.num as int, b.num as int, a.den as int, b.den as int);
}

/// The highest and the lowest that the players of a save file reach: in
/// the scores of the four classes of position, and in current ability.
///
/// A class that no player of the file stands in has a "worst" above its
/// "best".
#[derive(Clone, Copy, Debug, PartialEq, Eq, Structural)]
pub struct RatingBounds {
    pub best_gk: i64,
    pub best_d: i64,
    pub best_w: i64,
    pub best_c: i64,
    pub best_ca: i16,
    pub worst_gk: i64,
    pub worst_d: i64,
    pub worst_w: i64,
    pub worst_c: i64,
    pub worst_ca: i16,
}

/// The bounds of no players at all.
pub open spec fn no_bounds() -> RatingBounds {
    RatingBounds {
        best_gk: i64::MIN,
        best_d: i64::MIN,
        best_w: i64::MIN,
        best_c: i64::MIN,
        best_ca: i16::MIN,
        worst_gk: i64::MAX,
        worst_d: i64::MAX,
        worst_w: i64::MAX,
        worst_c: i64::MAX,
        worst_ca: i16::MAX,
    }
}

pub open spec fn higher(a: int, b: int) -> int {
    if a < b {
        b
    } else {
        a
    }
}

pub open spec fn lower(a: int, b: int) -> int {
    if b < a {
        b
    } else {
        a
    }
}

impl RatingBounds {
    /// The bounds of no players at all.
    pub fn new() -> (b: RatingBounds)
        ensures
            b == no_bounds(),
    {
        RatingBounds {
            best_gk: i64::MIN,
            best_d: i64::MIN,
            best_w: i64::MIN,
            best_c: i64::MIN,
            best_ca: i16::MIN,
            worst_gk: i64::MAX,
            worst_d: i64::MAX,
            worst_w: i64::MAX,
            worst_c: i64::MAX,
            worst_ca: i16::MAX,
        }
    }

    /// The bounds with the current ability of one more player.
    pub open spec fn with_ability(self, ca: i16) -> RatingBounds {
        RatingBounds {
            best_ca: higher(self.best_ca as int, ca as int) as i16,
            worst_ca: lower(self.worst_ca as int, ca as int) as i16,
            ..self
        }
    }

    /// The bounds with the score of one more goalkeeper.
    pub open spec fn with_goalie(self, gk: i64) -> RatingBounds {
        RatingBounds {
            best_gk: higher(self.best_gk as int, gk as int) as i64,
            worst_gk: lower(self.worst_gk as int, gk as int) as i64,
            ..self
        }
    }

    /// The bounds with the scores of one more skater.
    pub open spec fn with_skater(self, d: i64, w: i64, c: i64) -> RatingBounds {
        RatingBounds {
            best_d: higher(self.best_d as int, d as int) as i64,
            worst_d: lower(self.worst_d as int, d as int) as i64,
            best_w: higher(self.best_w as int, w as int) as i64,
            worst_w: lower(self.worst_w as int, w as int) as i64,
            best_c: higher(self.best_c as int, c as int) as i64,
            worst_c: lower(self.worst_c as int, c as int) as i64,
            ..self
        }
    }

    pub fn add_ability(&mut self, ca: i16)
        ensures
            *final(self) == old(self).with_ability(ca),
    {
        if ca > self.best_ca {
            self.best_ca = ca;
        }
        if ca < self.worst_ca {
            self.worst_ca = ca;
        }
    }

    pub fn add_goalie(&mut self, gk: i64)
        ensures
            *final(self) == old(self).with_goalie(gk),
    {
        if gk > self.best_gk {
            self.best_gk = gk;
        }
        if gk < self.worst_gk {
            self.worst_gk = gk;
        }
    }

    pub fn add_skater(&mut self, d: i64, w: i64, c: i64)
        ensures
            *final(self) == old(self).with_skater(d, w, c),
    {
        if d > self.best_d {
            self.best_d = d;
        }
        if d < self.worst_d {
            self.worst_d = d;
        }
        if w > self.best_w {
            self.best_w = w;
        }
        if w < self.worst_w {
            self.worst_w = w;
        }
        if c > self.best_c {
            self.best_c = c;
        }
        if c < self.worst_c {
            self.worst_c = c;
        }
    }
}

} // verus!
