//! The chart by which the game shows an attribute: for every current
//! ability, which values in the file stand for which value on the screen.

use std::collections::HashMap;
use vstd::prelude::*;

verus! {

broadcast use vstd::std_specs::hash::group_hash_axioms;

/// The values in the file, from `low` to `high` with both ends, that stand
/// for the value `real` on the screen.
#[derive(Clone, Copy, Debug, PartialEq, Eq, Structural)]
pub struct AttributeBand {
    pub real: i8,
    pub low: i8,
    pub high: i8,
}

/// The chart: the bands of every current ability.
#[derive(Clone, Debug)]
pub struct AttributeChart {
    pub rows: HashMap<i16, Vec<AttributeBand>>,
}

/// What the first band that holds `attribute` stands for.
pub open spec fn first_band(bands: Seq<AttributeBand>, attribute: i8) -> Option<i8>
    decreases bands.len(),
{
    if bands.len() == 0 {
        None
    } else if bands[0].low <= attribute <= bands[0].high {
        Some(bands[0].real)
    } else {
        first_band(bands.skip(1), attribute)
    }
}

impl AttributeChart {
    /// The value on the screen of an attribute of a player with the given
    /// current ability: what the first band of that ability that holds the
    /// attribute stands for. `None` where the chart has no band for it.
    pub closed spec fn converted(&self, current_ability: i16, attribute: i8) -> Option<i8> {
        if self.rows@.contains_key(current_ability) {
            first_band(self.rows@[current_ability]@, attribute)
        } else {
            None
        }
    }

    /// What `converted` is.
    pub proof fn lemma_converted(&self, current_ability: i16, attribute: i8)
        ensures
            self.converted(current_ability, attribute) == if self.rows@.contains_key(
                current_ability,
            ) {
                first_band(self.rows@[current_ability]@, attribute)
            } else {
                None
            },
    {
    }

    /// A chart without bands.
    pub fn new() -> (c: AttributeChart)
        ensures
            forall|ca: i16, a: i8| c.converted(ca, a) is None,
    {
        AttributeChart { rows: HashMap::new() }
    }

    /// Sets the bands of a current ability, in place of those it had.
    pub fn set_bands(&mut self, current_ability: i16, bands: Vec<AttributeBand>)
        ensures
            forall|a: i8| #[trigger]
                final(self).converted(current_ability, a) == first_band(bands@, a),
            forall|ca: i16, a: i8|
                ca != current_ability ==> #[trigger] final(self).converted(ca, a) == old(
                    self,
                ).converted(ca, a),
    {
        self.rows.insert(current_ability, bands);
    }

    /// The value on the screen of an attribute of a player with the given
    /// current ability.
    pub fn convert(&self, current_ability: i16, attribute: i8) -> (r: Option<i8>)
        ensures
            r == self.converted(current_ability, attribute),
    {
        match self.rows.get(&current_ability) {
            Some(bands) => {
                let mut i: usize = 0;
                assert(bands@.skip(0) =~= bands@);
                while i < bands.len()
                    invariant
                        i <= bands@.len(),
                        self.converted(current_ability, attribute) == first_band(
                            bands@,
                            attribute,
                        ),
                        first_band(bands@, attribute) == first_band(
                            bands@.skip(i as int),
                            attribute,
                        ),
                    decreases bands@.len() - i,
                {
                    let band = bands[i];
                    assert(bands@.skip(i as int)[0] == band);
                    if band.low <= attribute && attribute <= band.high {
                        return Some(band.real);
                    }
                    assert(bands@.skip(i as int).skip(1) =~= bands@.skip(i + 1));
                    i += 1;
                }
                None
            },
            None => None,
        }
    }
}

} // verus!
