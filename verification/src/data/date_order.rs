//! The order of dates: by year, then by day. The leap-year flag takes no part.

use core::cmp::Ordering;
use vstd::prelude::*;

use crate::data::date::SIDate;

verus! {

impl PartialOrd for SIDate {
    fn partial_cmp(&self, other: &SIDate) -> (r: Option<Ordering>) {
        if self.year < other.year {
            Some(Ordering::Less)
        } else if self.year > other.year {
            Some(Ordering::Greater)
        } else if self.day < other.day {
            Some(Ordering::Less)
        } else if self.day > other.day {
            Some(Ordering::Greater)
        } else {
            Some(Ordering::Equal)
        }
    }
}

impl vstd::std_specs::cmp::PartialOrdSpecImpl for SIDate {
    open spec fn obeys_partial_cmp_spec() -> bool {
        true
    }

    open spec fn partial_cmp_spec(&self, other: &SIDate) -> Option<Ordering> {
        if self.before(other) {
            Some(Ordering::Less)
        } else if other.before(self) {
            Some(Ordering::Greater)
        } else {
            Some(Ordering::Equal)
        }
    }
}

/// The later of two dates; the first where neither is later.
pub fn later_of(a: SIDate, b: SIDate) -> (r: SIDate)
    ensures
        r == if a.before(&b) { b } else { a },
{
    if a < b {
        b
    } else {
        a
    }
}

/// The earlier of two dates; the first where neither is earlier.
pub fn earlier_of(a: SIDate, b: SIDate) -> (r: SIDate)
    ensures
        r == if b.before(&a) { b } else { a },
{
    if a > b {
        b
    } else {
        a
    }
}

} // verus!
